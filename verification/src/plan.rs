use vstd::prelude::*;

use crate::command::ScepterCommand;

verus! {

/// A named group of Scepter commands that can be validated, previewed, and applied together.
#[derive(Debug, Clone, PartialEq)]
pub struct ScepterPlan {
    pub name: Option<String>,
    pub description: Option<String>,
    pub commands: Vec<ScepterCommand>,
}

impl Default for ScepterPlan {
    /// The unnamed plan with no description and no commands.
    fn default() -> (p: Self)
        ensures
            p.name is None,
            p.description is None,
            p.commands@ == Seq::<ScepterCommand>::empty(),
    {
        ScepterPlan { name: None, description: None, commands: Vec::new() }
    }
}

impl ScepterPlan {
    /// An empty plan with the given name and no description.
    pub fn new(name: &str) -> (p: Self)
        ensures
            p.name matches Some(n) && n@ == name@,
            p.description is None,
            p.commands@ == Seq::<ScepterCommand>::empty(),
    {
        ScepterPlan { name: Some(String::from_str(name)), ..ScepterPlan::default() }
    }

    /// Appends a command at the end of the plan.
    pub fn push(&mut self, command: ScepterCommand)
        ensures
            final(self).commands@ == old(self).commands@.push(command),
            final(self).name == old(self).name,
            final(self).description == old(self).description,
    {
        self.commands.push(command);
    }

    /// True when the plan holds no command.
    pub fn is_empty(&self) -> (b: bool)
        ensures
            b == (self.commands@.len() == 0),
    {
        self.commands.len() == 0
    }
}

} // verus!
