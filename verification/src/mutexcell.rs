use vstd::prelude::*;

verus! {

/// A single-core lock: on this machine mutual exclusion is the disabled-
/// interrupt discipline, so the lock only carries its value.
pub struct Mutex<T> {
    pub data: T,
}

impl<T> Mutex<T> {
    /// Wraps a value.
    pub fn new(data: T) -> (r: Mutex<T>)
        ensures
            r.data == data,
    {
        Mutex { data }
    }

    /// A reference to the protected value.
    pub fn get(&self) -> (r: &T)
        ensures
            r == self.data,
    {
        &self.data
    }

    /// Replaces the protected value, handing the previous one back.
    pub fn replace(&mut self, data: T) -> (prev: T)
        ensures
            final(self).data == data,
            prev == old(self).data,
    {
        let mut data = data;
        core::mem::swap(&mut data, &mut self.data);
        data
    }
}

} // verus!
