//! The state packages of a simulation and the registry of their creators.
//!
//! The registry is a value: it is built once, filled once for an experiment
//! run, and handed by reference to whoever needs a creator.

use vstd::prelude::*;

verus! {

/// The names of all state packages.
#[derive(Clone, Copy, Debug, PartialEq, Eq, Structural, Hash)]
pub enum Name {
    BehaviorExecution,
    Topology,
}

impl Name {
    /// The name as it is written.
    pub open spec fn text(self) -> &'static str {
        match self {
            Name::BehaviorExecution => "BehaviorExecution",
            Name::Topology => "Topology",
        }
    }

    /// The name as it is written.
    pub fn as_static_str(&self) -> (text: &'static str)
        ensures
            text@ == self.text()@,
    {
        match self {
            Name::BehaviorExecution => "BehaviorExecution",
            Name::Topology => "Topology",
        }
    }
}

/// The task that runs the behaviors of the agents.
#[derive(Clone, Copy, Debug, PartialEq, Eq, Structural)]
pub struct ExecuteBehaviorsTask {}

/// What a worker answers to an [`ExecuteBehaviorsTask`].
#[derive(Clone, Copy, Debug, PartialEq, Eq, Structural)]
pub struct ExecuteBehaviorsTaskMessage {}

/// The tasks of all state packages.
#[derive(Clone, Copy, Debug, PartialEq, Eq, Structural)]
pub enum StateTask {
    ExecuteBehaviorsTask(ExecuteBehaviorsTask),
}

/// The task messages of all state packages.
#[derive(Clone, Copy, Debug, PartialEq, Eq, Structural)]
pub enum StateTaskMessage {
    ExecuteBehaviorsTaskMessage(ExecuteBehaviorsTaskMessage),
}

/// Why the registry did not do what it was asked.
#[derive(Clone, Copy, Debug, PartialEq, Eq, Structural)]
pub enum Error {
    /// The registry was filled before.
    AlreadyInitialized,
    /// The registry has not been filled yet.
    NotInitialized,
    /// The registry is filled but holds no creator under this name.
    MissingCreator(Name),
}

impl Error {
    /// The failure in words.
    pub open spec fn text(self) -> &'static str {
        match self {
            Error::AlreadyInitialized => "Failed to initialize State Package Creators",
            Error::NotInitialized => "State Package Creators weren't initialized",
            Error::MissingCreator(Name::BehaviorExecution) => {
                "Package creator: BehaviorExecution wasn't within the State Package Creators map"
            },
            Error::MissingCreator(Name::Topology) => {
                "Package creator: Topology wasn't within the State Package Creators map"
            },
        }
    }

    /// The failure in words.
    pub fn message(&self) -> (text: &'static str)
        ensures
            text@ == self.text()@,
    {
        match self {
            Error::AlreadyInitialized => "Failed to initialize State Package Creators",
            Error::NotInitialized => "State Package Creators weren't initialized",
            Error::MissingCreator(Name::BehaviorExecution) => {
                "Package creator: BehaviorExecution wasn't within the State Package Creators map"
            },
            Error::MissingCreator(Name::Topology) => {
                "Package creator: Topology wasn't within the State Package Creators map"
            },
        }
    }
}

/// Whether the first creator under `name` stands at `i` in `creators`.
pub open spec fn first_at<C>(creators: Seq<(Name, C)>, name: Name, i: int) -> bool {
    &&& 0 <= i < creators.len()
    &&& creators[i].0 == name
    &&& forall|j: int| 0 <= j < i ==> (#[trigger] creators[j]).0 != name
}

/// Where the first creator under `name` stands in `creators`, if there is one.
pub open spec fn registered_at<C>(creators: Seq<(Name, C)>, name: Name) -> Option<int> {
    if exists|i: int| first_at(creators, name, i) {
        Some(choose|i: int| first_at(creators, name, i))
    } else {
        None
    }
}

/// The creators that a run registers: one for each state package, in the
/// order of the names.
pub open spec fn creators_of_run<C>(behavior_execution: C, topology: C) -> Seq<(Name, C)> {
    seq![(Name::BehaviorExecution, behavior_execution), (Name::Topology, topology)]
}

/// What a lookup of `name` answers from a registry that holds `registry`.
pub open spec fn lookup<C>(registry: Option<Seq<(Name, C)>>, name: Name) -> Result<C, Error> {
    match registry {
        None => Err(Error::NotInitialized),
        Some(creators) => match registered_at(creators, name) {
            None => Err(Error::MissingCreator(name)),
            Some(i) => Ok(creators[i].1),
        },
    }
}

/// The creators of the state packages, by name. Empty until an experiment
/// run fills it, and filled only once.
pub struct PackageCreators<C> {
    creators: Option<Vec<(Name, C)>>,
}

impl<C> View for PackageCreators<C> {
    type V = Option<Seq<(Name, C)>>;

    /// The creators with their names, once the registry is filled.
    closed spec fn view(&self) -> Option<Seq<(Name, C)>> {
        match self.creators {
            None => None,
            Some(creators) => Some(creators@),
        }
    }
}

impl<C> PackageCreators<C> {
    /// A registry that has not been filled.
    pub fn new() -> (registry: Self)
        ensures
            registry@ is None,
    {
        PackageCreators { creators: None }
    }

    /// Fills the registry with the creators of a run. A registry is filled
    /// once: a second call fails and leaves it as it is.
    pub fn initialize_for_experiment_run(&mut self, behavior_execution: C, topology: C) -> (result: Result<
        (),
        Error,
    >)
        ensures
            match result {
                Ok(()) => {
                    &&& old(self)@ is None
                    &&& final(self)@ == Some(creators_of_run(behavior_execution, topology))
                },
                Err(error) => {
                    &&& old(self)@ is Some
                    &&& error == Error::AlreadyInitialized
                    &&& final(self)@ == old(self)@
                },
            },
    {
        if self.creators.is_some() {
            return Err(Error::AlreadyInitialized);
        }
        let mut creators: Vec<(Name, C)> = Vec::new();
        creators.push((Name::BehaviorExecution, behavior_execution));
        creators.push((Name::Topology, topology));
        self.creators = Some(creators);
        Ok(())
    }

    /// The creator registered under `name`.
    pub fn get_checked(&self, name: &Name) -> (result: Result<&C, Error>)
        ensures
            match lookup(self@, *name) {
                Ok(creator) => result == Ok::<&C, Error>(&creator),
                Err(error) => result == Err::<&C, Error>(error),
            },
    {
        match &self.creators {
            None => Err(Error::NotInitialized),
            Some(creators) => {
                let mut i: usize = 0;
                while i < creators.len()
                    invariant
                        i <= creators.len(),
                        self@ == Some(creators@),
                        forall|j: int| 0 <= j < i ==> (#[trigger] creators@[j]).0 != *name,
                    decreases creators.len() - i,
                {
                    if creators[i].0 == *name {
                        assert(first_at(creators@, *name, i as int));
                        return Ok(&creators[i].1);
                    }
                    i += 1;
                }
                Err(Error::MissingCreator(*name))
            },
        }
    }

    /// All creators with their names, in the order they were registered.
    pub fn iter_checked(&self) -> (result: Result<&Vec<(Name, C)>, Error>)
        ensures
            match self@ {
                Some(creators) => result matches Ok(all) && all@ == creators,
                None => result == Err::<&Vec<(Name, C)>, Error>(Error::NotInitialized),
            },
    {
        match &self.creators {
            None => Err(Error::NotInitialized),
            Some(creators) => Ok(creators),
        }
    }
}

/// After a run has filled the registry, every state package has its creator.
pub proof fn every_package_is_registered<C>(behavior_execution: C, topology: C, name: Name)
    ensures
        lookup(Some(creators_of_run(behavior_execution, topology)), name) == Ok::<C, Error>(
            match name {
                Name::BehaviorExecution => behavior_execution,
                Name::Topology => topology,
            },
        ),
{
    let creators = creators_of_run(behavior_execution, topology);
    match name {
        Name::BehaviorExecution => {
            assert(first_at(creators, name, 0));
        },
        Name::Topology => {
            assert(first_at(creators, name, 1));
        },
    }
}

} // verus!
