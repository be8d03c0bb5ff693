use vstd::prelude::*;
use vstd::string::*;

verus! {

/// The navigation bar of the first dashboard layout.
#[derive(Debug)]
pub struct Navbar {
    app_name: &'static str,
    pub search_query: String,
    pub search_results: Vec<String>,
}

impl Navbar {
    /// The text searched for.
    pub closed spec fn query(&self) -> Seq<char> {
        self.search_query@
    }

    /// The results of the last search.
    pub closed spec fn results(&self) -> Seq<Seq<char>> {
        self.search_results.deep_view()
    }

    /// The name that the bar shows.
    pub closed spec fn name(&self) -> Seq<char> {
        self.app_name@
    }

    pub fn new() -> (r: Self)
        ensures
            r.name() == "Shelf"@,
            r.query() == Seq::<char>::empty(),
            r.results() == Seq::<Seq<char>>::empty(),
    {
        Self { app_name: "Shelf", search_query: String::new(), search_results: Vec::new() }
    }

    /// The results of a search: this layout has no database and answers
    /// every search with the single result "temp".
    pub fn search(&self) -> (r: Vec<String>)
        ensures
            r.deep_view() == seq!["temp"@],
    {
        let mut v: Vec<String> = Vec::new();
        v.push("temp".to_owned());
        assert(v.deep_view() =~= seq!["temp"@]);
        v
    }
}

} // verus!
