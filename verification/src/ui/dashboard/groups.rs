use vstd::prelude::*;
use vstd::string::*;

verus! {

/// The group list of the first dashboard layout, with sample groups.
#[derive(Debug)]
pub struct Groups {
    group_list: Vec<Group>,
    pub search_query: String,
    pub search_results: Vec<String>,
}

/// A sample group: id, name and number of items.
#[derive(Debug)]
struct Group {
    group_id: String,
    group_name: String,
    item_count: usize,
}

spec fn group_view(g: Group) -> (Seq<char>, Seq<char>, usize) {
    (g.group_id@, g.group_name@, g.item_count)
}

fn group(id: &str, name: &str, item_count: usize) -> (r: Group)
    ensures
        group_view(r) == (id@, name@, item_count),
{
    Group { group_id: id.to_owned(), group_name: name.to_owned(), item_count }
}

impl Groups {
    /// The text searched for.
    pub closed spec fn query(&self) -> Seq<char> {
        self.search_query@
    }

    /// The results of the last search.
    pub closed spec fn results(&self) -> Seq<Seq<char>> {
        self.search_results.deep_view()
    }

    /// The groups, as id, name and number of items, in the order shown.
    pub closed spec fn listed(&self) -> Seq<(Seq<char>, Seq<char>, usize)> {
        self.group_list@.map_values(|g: Group| group_view(g))
    }

    /// Four sample groups: "Favorite" with no items, "Recent" with 2,
    /// "Custom 1" with none and "Custom 2" with 5; no search.
    pub fn new() -> (r: Self)
        ensures
            r.listed() == seq![
                ("favorite"@, "Favorite"@, 0usize),
                ("recent"@, "Recent"@, 2usize),
                ("cus2346245723tom"@, "Custom 1"@, 0usize),
                ("custo2342662m2"@, "Custom 2"@, 5usize),
            ],
            r.query() == Seq::<char>::empty(),
            r.results() == Seq::<Seq<char>>::empty(),
    {
        let mut group_list: Vec<Group> = Vec::new();
        group_list.push(group("favorite", "Favorite", 0));
        group_list.push(group("recent", "Recent", 2));
        group_list.push(group("cus2346245723tom", "Custom 1", 0));
        group_list.push(group("custo2342662m2", "Custom 2", 5));
        let r = Self { group_list, search_query: String::new(), search_results: Vec::new() };
        assert(r.listed() =~= seq![
            ("favorite"@, "Favorite"@, 0usize),
            ("recent"@, "Recent"@, 2usize),
            ("cus2346245723tom"@, "Custom 1"@, 0usize),
            ("custo2342662m2"@, "Custom 2"@, 5usize),
        ]);
        r
    }
}

} // verus!
