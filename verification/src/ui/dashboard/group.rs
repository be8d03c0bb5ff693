use vstd::prelude::*;
use vstd::string::*;

verus! {

/// A group of the first dashboard layout, with sample commands.
#[derive(Debug)]
pub struct Group {
    pub group_id: String,
    pub group_name: String,
    pub command_list: Vec<CommandInfo>,
}

/// A command of the first dashboard layout.
#[derive(Debug)]
pub struct CommandInfo {
    pub command_id: String,
    pub command_name: String,
    pub command_description: String,
}

/// A command as plain values: id, name and description.
pub open spec fn command_view(c: CommandInfo) -> (Seq<char>, Seq<char>, Seq<char>) {
    (c.command_id@, c.command_name@, c.command_description@)
}

/// The sample command that the layout shows.
pub open spec fn sample_command() -> (Seq<char>, Seq<char>, Seq<char>) {
    ("tempCommandId"@, "tempCommandName"@, "tempCommandDescription"@)
}

fn sample_command_info() -> (r: CommandInfo)
    ensures
        command_view(r) == sample_command(),
{
    CommandInfo {
        command_id: "tempCommandId".to_owned(),
        command_name: "tempCommandName".to_owned(),
        command_description: "tempCommandDescription".to_owned(),
    }
}

impl Group {
    /// A sample group, "tempgroup", with two sample commands.
    pub fn new() -> (r: Self)
        ensures
            r.group_id@ == "tempIdr34t4"@,
            r.group_name@ == "tempgroup"@,
            r.command_list.len() == 2,
            forall|i: int| 0 <= i < 2 ==> command_view(#[trigger] r.command_list@[i]) == sample_command(),
    {
        let mut list: Vec<CommandInfo> = Vec::new();
        list.push(sample_command_info());
        list.push(sample_command_info());
        Self { group_id: "tempIdr34t4".to_owned(), group_name: "tempgroup".to_owned(), command_list: list }
    }
}

} // verus!
