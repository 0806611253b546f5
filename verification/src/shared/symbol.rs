use vstd::prelude::*;

verus! {

/// A copy of `bytes`.
pub fn copy_bytes(bytes: &Vec<u8>) -> (r: Vec<u8>)
    ensures
        r@ == bytes@,
{
    let mut out: Vec<u8> = Vec::new();
    let n = bytes.len();
    for i in 0..n
        invariant
            n == bytes@.len(),
            out@ == bytes@.take(i as int),
    {
        out.push(bytes[i]);
        assert(bytes@.take(i + 1) == bytes@.take(i as int).push(bytes@[i as int]));
    }
    assert(bytes@.take(n as int) == bytes@);
    out
}

/// A short name (a category, a verification kind), held as its bytes.
#[derive(Debug)]
pub struct Symbol {
    /// The name's bytes.
    pub bytes: Vec<u8>,
}

impl View for Symbol {
    type V = Seq<u8>;

    open spec fn view(&self) -> Seq<u8> {
        self.bytes@
    }
}

impl Symbol {
    /// The symbol with the given bytes.
    pub fn from_bytes(bytes: Vec<u8>) -> (s: Symbol)
        ensures
            s@ == bytes@,
    {
        Symbol { bytes }
    }

    /// A copy of this symbol.
    pub fn duplicate(&self) -> (s: Symbol)
        ensures
            s@ == self@,
    {
        Symbol { bytes: copy_bytes(&self.bytes) }
    }

    /// Whether two symbols are the same name.
    pub fn same_as(&self, other: &Symbol) -> (r: bool)
        ensures
            r == (self@ == other@),
    {
        let n = self.bytes.len();
        if n != other.bytes.len() {
            return false;
        }
        for i in 0..n
            invariant
                n == self.bytes@.len(),
                n == other.bytes@.len(),
                forall|j: int| 0 <= j < i ==> self.bytes@[j] == other.bytes@[j],
        {
            if self.bytes[i] != other.bytes[i] {
                return false;
            }
        }
        assert(self.bytes@ =~= other.bytes@);
        true
    }
}

} // verus!
