use vstd::prelude::*;

verus! {

/// The key pair with which session tokens are signed and checked.
#[derive(Debug, Clone)]
pub struct Keys {
    public_key: Vec<u8>,
    private_key: Vec<u8>,
}

impl Keys {
    pub closed spec fn public(&self) -> Seq<u8> {
        self.public_key@
    }

    pub closed spec fn private(&self) -> Seq<u8> {
        self.private_key@
    }

    pub fn new(public_key: Vec<u8>, private_key: Vec<u8>) -> (r: Keys)
        ensures
            r.public() == public_key@,
            r.private() == private_key@,
    {
        Keys { public_key, private_key }
    }

    pub fn public_key(&self) -> (r: &[u8])
        ensures
            r@ == self.public(),
    {
        self.public_key.as_slice()
    }

    pub fn private_key(&self) -> (r: &[u8])
        ensures
            r@ == self.private(),
    {
        self.private_key.as_slice()
    }
}

} // verus!
