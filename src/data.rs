use vstd::prelude::*;

verus! {

/// Values a mod hands to the host, each as raw bytes.
pub struct ArbitraryData {
    pub data: Vec<Vec<u8>>,
}

impl ArbitraryData {
    /// The bytes of the value passed as a setter's argument: the first one,
    /// if there is any.
    pub fn argument(&self) -> (r: Option<&Vec<u8>>)
        ensures
            self.data@.len() == 0 ==> r is None,
            self.data@.len() > 0 ==> (r matches Some(v) && v@ == self.data@[0]@),
    {
        if self.data.len() == 0 {
            None
        } else {
            Some(&self.data[0])
        }
    }
}

} // verus!
