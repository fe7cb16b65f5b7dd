//! Names in the form the timing backend takes them: bytes closed by one NUL
//! byte, with no NUL byte among them.

use vstd::prelude::*;
use vstd::string::StringSliceAdditionalSpecFns;

verus! {

/// No byte of `bytes` is NUL.
pub open spec fn nul_free(bytes: Seq<u8>) -> bool {
    forall|i: int| 0 <= i < bytes.len() ==> bytes[i] != 0
}

/// `position` is the index of the first NUL byte of `bytes`.
pub open spec fn first_nul(bytes: Seq<u8>, position: int) -> bool {
    &&& 0 <= position < bytes.len()
    &&& bytes[position] == 0
    &&& forall|i: int| 0 <= i < position ==> bytes[i] != 0
}

/// A name that cannot be handed to the backend: it holds a NUL byte.
#[derive(Clone, Copy, Debug, PartialEq, Eq, Structural)]
pub struct NameError {
    /// Index of the first NUL byte of the rejected name.
    pub position: usize,
}

/// A category, group, scope, counter or thread name, checked and stored with
/// its closing NUL byte.
#[derive(Debug, PartialEq, Eq)]
pub struct Name {
    bytes: Vec<u8>,
}

impl View for Name {
    type V = Seq<u8>;

    /// The bytes of the name, without the closing NUL byte.
    closed spec fn view(&self) -> Seq<u8> {
        self.bytes@.drop_last()
    }
}

impl Name {
    #[verifier::type_invariant]
    spec fn terminated(self) -> bool {
        &&& self.bytes@.len() >= 1
        &&& self.bytes@.last() == 0
        &&& nul_free(self.bytes@.drop_last())
    }

    /// Checks `name` and stores its UTF-8 bytes. A name with a NUL byte is
    /// rejected, with the place of the first one.
    pub fn new(name: &str) -> (result: Result<Name, NameError>)
        ensures
            match result {
                Ok(checked) => checked@ == name.spec_bytes() && nul_free(name.spec_bytes()),
                Err(error) => first_nul(name.spec_bytes(), error.position as int),
            },
    {
        Name::from_bytes(name.as_bytes())
    }

    /// Checks `bytes` and stores them. Bytes with a NUL byte among them are
    /// rejected, with the place of the first one.
    pub fn from_bytes(bytes: &[u8]) -> (result: Result<Name, NameError>)
        ensures
            match result {
                Ok(checked) => checked@ == bytes@ && nul_free(bytes@),
                Err(error) => first_nul(bytes@, error.position as int),
            },
    {
        let mut buffer: Vec<u8> = Vec::new();
        let mut i: usize = 0;
        while i < bytes.len()
            invariant
                i <= bytes.len(),
                buffer@ == bytes@.take(i as int),
                nul_free(buffer@),
            decreases bytes.len() - i,
        {
            let byte: u8 = bytes[i];
            if byte == 0 {
                assert forall|j: int| 0 <= j < i implies bytes@[j] != 0 by {
                    assert(bytes@[j] == buffer@[j]);
                }
                return Err(NameError { position: i });
            }
            buffer.push(byte);
            i += 1;
        }
        buffer.push(0);
        Ok(Name { bytes: buffer })
    }

    /// The stored bytes with their closing NUL byte: what a C string of this
    /// name holds.
    pub fn as_bytes_with_nul(&self) -> (bytes: &[u8])
        ensures
            bytes@ == self@.push(0),
            nul_free(self@),
    {
        proof {
            use_type_invariant(self);
        }
        self.bytes.as_slice()
    }

    /// The bytes of the name, without the closing NUL byte.
    pub fn as_bytes(&self) -> (bytes: &[u8])
        ensures
            bytes@ == self@,
            nul_free(self@),
    {
        proof {
            use_type_invariant(self);
        }
        let stored = self.bytes.as_slice();
        vstd::slice::slice_subrange(stored, 0, stored.len() - 1)
    }

    /// Number of bytes of the name, the closing NUL byte not counted.
    pub fn len(&self) -> (len: usize)
        ensures
            len == self@.len(),
    {
        proof {
            use_type_invariant(self);
        }
        self.bytes.len() - 1
    }
}

impl Clone for Name {
    fn clone(&self) -> (copy: Name)
        ensures
            copy@ == self@,
    {
        proof {
            use_type_invariant(self);
        }
        let bytes = self.bytes.clone();
        Name { bytes }
    }
}

} // verus!
