use vstd::prelude::*;

verus! {

/// What tells two executable images apart: their full contents.
pub struct ExecutableIdentity {
    contents: Vec<u8>,
}

impl View for ExecutableIdentity {
    type V = Seq<u8>;

    closed spec fn view(&self) -> Seq<u8> {
        self.contents@
    }
}

/// The identity of an executable image whose contents are `bytes`.
pub fn executable_identity_from_bytes(bytes: &[u8]) -> (identity: ExecutableIdentity)
    ensures
        identity@ == bytes@,
{
    ExecutableIdentity { contents: vstd::slice::slice_to_vec(bytes) }
}

impl ExecutableIdentity {
    /// Whether two identities name the same image.
    pub fn same_image(&self, other: &ExecutableIdentity) -> (same: bool)
        ensures
            same == (self@ == other@),
    {
        let n = self.contents.len();
        if n != other.contents.len() {
            return false;
        }
        let mut i: usize = 0;
        while i < n
            invariant
                n == self.contents@.len(),
                n == other.contents@.len(),
                i <= n,
                forall|j: int| 0 <= j < i ==> self.contents@[j] == other.contents@[j],
            decreases n - i,
        {
            if self.contents[i] != other.contents[i] {
                return false;
            }
            i = i + 1;
        }
        assert(self.contents@ =~= other.contents@);
        true
    }
}

} // verus!
