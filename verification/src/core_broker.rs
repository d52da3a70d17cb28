use vstd::prelude::*;
use crate::error::JuizError;
use crate::identifier::Identifier;
use crate::process::ProcessImpl;
use crate::strings::str_eq;
use crate::value::Value;

verus! {

/// The broker of the core: its manifest and the processes it holds.
pub struct CoreBroker<F> {
    pub manifest: Value,
    pub process_rack: Vec<ProcessImpl<F>>,
}

/// Process `i` is the first in the rack with the identifier.
pub open spec fn first_with_identifier<F>(rack: Seq<ProcessImpl<F>>, i: int, id: Seq<char>) -> bool {
    &&& 0 <= i < rack.len()
    &&& rack[i].core.identifier@ == id
    &&& forall|j: int| 0 <= j < i ==> (#[trigger] rack[j]).core.identifier@ != id
}

/// Some process of the rack has the identifier.
pub open spec fn holds_process<F>(rack: Seq<ProcessImpl<F>>, id: Seq<char>) -> bool {
    exists|i: int| 0 <= i < rack.len() && (#[trigger] rack[i]).core.identifier@ == id
}

impl<F: Fn(Vec<(String, Value)>) -> Result<Value, JuizError>> CoreBroker<F> {
    /// A broker with the manifest and no processes.
    pub fn new(manifest: Value) -> (r: Result<CoreBroker<F>, JuizError>)
        ensures
            r matches Ok(b) && b.manifest == manifest && b.process_rack@.len() == 0,
    {
        Ok(CoreBroker { manifest, process_rack: Vec::new() })
    }

    /// Puts a process into the rack.
    pub fn push_process(&mut self, p: ProcessImpl<F>) -> (r: Result<(), JuizError>)
        ensures
            r is Ok,
            final(self).process_rack@ == old(self).process_rack@.push(p),
            final(self).manifest == old(self).manifest,
    {
        self.process_rack.push(p);
        Ok(())
    }

    /// The index of the first process with the identifier, if any.
    fn process_index(&self, id: &Identifier) -> (r: Option<usize>)
        ensures
            r matches Some(i) ==> first_with_identifier(self.process_rack@, i as int, id@),
            r is None ==> !holds_process(self.process_rack@, id@),
    {
        let mut i: usize = 0;
        while i < self.process_rack.len()
            invariant
                i <= self.process_rack@.len(),
                forall|j: int| 0 <= j < i ==> (#[trigger] self.process_rack@[j]).core.identifier@ != id@,
            decreases self.process_rack@.len() - i,
        {
            if str_eq(self.process_rack[i].core.identifier.as_str(), id.as_str()) {
                return Some(i);
            }
            i = i + 1;
        }
        None
    }

    /// Whether the broker holds a process with the identifier.
    pub fn is_in_charge_for_process(&self, id: &Identifier) -> (r: bool)
        ensures
            r == holds_process(self.process_rack@, id@),
    {
        self.process_index(id).is_some()
    }

    /// Calls the first process with the identifier on the arguments. Fails
    /// with `ProcessCanNotFoundError` where the broker holds none.
    pub fn call_process(&self, id: &Identifier, args: Vec<(String, Value)>) -> (r: Result<Value, JuizError>)
        requires
            forall|i: int|
                0 <= i < self.process_rack@.len() ==> (#[trigger] self.process_rack@[i]).function.requires((args,)),
        ensures
            !holds_process(self.process_rack@, id@) ==> r == Err::<Value, JuizError>(JuizError::ProcessCanNotFoundError),
            holds_process(self.process_rack@, id@) ==> exists|i: int|
                first_with_identifier(self.process_rack@, i, id@) && (#[trigger] self.process_rack@[i]).function.ensures(
                    (args,),
                    r,
                ),
    {
        match self.process_index(id) {
            None => Err(JuizError::ProcessCanNotFoundError),
            Some(i) => {
                let r = self.process_rack[i].call(args);
                proof {
                    assert(first_with_identifier(self.process_rack@, i as int, id@));
                }
                r
            },
        }
    }
}

} // verus!
