use vstd::prelude::*;

verus! {

/// An agent, known by first name.
#[derive(Debug)]
pub struct Agent {
    pub first_name: String,
}

/// Gathers the fields of an agent; `build` makes it.
#[derive(Debug, Default)]
pub struct AgentBuilder {
    pub first_name: Option<String>,
}

impl Agent {
    /// A builder with no field given.
    pub fn builder() -> (r: AgentBuilder)
        ensures
            r.first_name is None,
    {
        AgentBuilder { first_name: None }
    }

    /// The agent's name as shown: the first name.
    pub fn to_string(&self) -> (r: String)
        ensures
            r@ == self.first_name@,
    {
        self.first_name.clone()
    }
}

impl AgentBuilder {
    /// Sets the first name.
    pub fn first_name(self, first_name: &str) -> (r: AgentBuilder)
        ensures
            r.first_name matches Some(name) && name@ == first_name@,
    {
        AgentBuilder { first_name: Some(first_name.to_owned()) }
    }

    /// The agent with the first name given; the message "_" where none was given.
    pub fn build(self) -> (r: Result<Agent, &'static str>)
        ensures
            r is Ok <==> self.first_name is Some,
            r matches Ok(agent) ==> Some(agent.first_name) == self.first_name,
            r matches Err(message) ==> message@ == "_"@,
    {
        match self.first_name {
            Some(first_name) => Ok(Agent { first_name }),
            None => Err("_"),
        }
    }
}

} // verus!
