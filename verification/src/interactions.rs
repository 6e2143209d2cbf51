//! The bot's slash commands and its answers to them.

use vstd::prelude::*;

verus! {

/// A slash command as registered: its name and description.
#[derive(PartialEq, Eq, Debug)]
pub struct CommandDef {
    pub name: String,
    pub description: String,
}

fn command_def(name: &str, description: &str) -> (res: CommandDef)
    ensures
        res.name@ == name@,
        res.description@ == description@,
{
    CommandDef { name: String::from_str(name), description: String::from_str(description) }
}

/// The slash commands of the general group, in registration order.
pub fn general() -> (res: Vec<CommandDef>)
    ensures
        res@.len() == 3,
        res@[0].name@ == "allah"@ && res@[0].description@ == "acha bhay islam"@,
        res@[1].name@ == "ping"@ && res@[1].description@ == "Pong! bhay"@,
        res@[2].name@ == "chut"@ && res@[2].description@ == "yummy parantha"@,
{
    let mut res: Vec<CommandDef> = Vec::new();
    res.push(command_def("allah", "acha bhay islam"));
    res.push(command_def("ping", "Pong! bhay"));
    res.push(command_def("chut", "yummy parantha"));
    res
}

/// The content of the answer to the slash command named `interaction_name`.
pub fn responses(interaction_name: String) -> (res: String)
    ensures
        interaction_name@ == "allah"@ ==> res@ == "suar ki chamdi"@,
        interaction_name@ != "allah"@ ==> res@ == "na hai bhay"@,
{
    if interaction_name == String::from_str("allah") {
        String::from_str("suar ki chamdi")
    } else {
        String::from_str("na hai bhay")
    }
}

} // verus!
