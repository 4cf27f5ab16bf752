use vstd::prelude::*;

verus! {

/// Which server the user synchronises with.
#[derive(Debug, Clone, Copy, PartialEq, Eq, Structural)]
pub enum ServerChoices {
    Official,
    Custom,
}

impl ServerChoices {
    /// The key under which the choice's name is found in the message
    /// catalogue.
    pub fn message_key(&self) -> (key: &'static str)
        ensures
            key@ == match *self {
                ServerChoices::Official => "official-server"@,
                ServerChoices::Custom => "custom"@,
            },
    {
        match self {
            ServerChoices::Official => "official-server",
            ServerChoices::Custom => "custom",
        }
    }

    /// The message keys of all choices, the official server first.
    pub fn all_as_strings() -> (all: Vec<String>)
        ensures
            all@.len() == 2,
            all@[0]@ == "official-server"@,
            all@[1]@ == "custom"@,
    {
        let mut all: Vec<String> = Vec::new();
        all.push(String::from_str(ServerChoices::Official.message_key()));
        all.push(String::from_str(ServerChoices::Custom.message_key()));
        all
    }
}

} // verus!
