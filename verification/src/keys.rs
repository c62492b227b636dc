//! The key material that a session is set up with.

use vstd::prelude::*;

verus! {

fn copy_bytes(bytes: &Vec<u8>) -> (copy: Vec<u8>)
    ensures
        copy@ == bytes@,
{
    let copy = bytes.clone();
    assert(copy@ =~= bytes@);
    copy
}

/// The secret that both peers of a session share from its URL.
#[derive(Debug)]
pub struct HandshakeKey {
    pub bytes: Vec<u8>,
}

impl View for HandshakeKey {
    type V = Seq<u8>;

    open spec fn view(&self) -> Seq<u8> {
        self.bytes@
    }
}

impl Clone for HandshakeKey {
    fn clone(&self) -> (copy: Self)
        ensures
            copy@ == self@,
    {
        HandshakeKey { bytes: copy_bytes(&self.bytes) }
    }
}

/// The public half of a key pair.
#[derive(Debug)]
pub struct EncryptionKey {
    pub bytes: Vec<u8>,
}

impl View for EncryptionKey {
    type V = Seq<u8>;

    open spec fn view(&self) -> Seq<u8> {
        self.bytes@
    }
}

impl Clone for EncryptionKey {
    fn clone(&self) -> (copy: Self)
        ensures
            copy@ == self@,
    {
        EncryptionKey { bytes: copy_bytes(&self.bytes) }
    }
}

/// The private half of a key pair.
#[derive(Debug)]
pub struct DecryptionKey {
    pub bytes: Vec<u8>,
}

impl View for DecryptionKey {
    type V = Seq<u8>;

    open spec fn view(&self) -> Seq<u8> {
        self.bytes@
    }
}

impl Clone for DecryptionKey {
    fn clone(&self) -> (copy: Self)
        ensures
            copy@ == self@,
    {
        DecryptionKey { bytes: copy_bytes(&self.bytes) }
    }
}

/// The two halves of the key pair that a peer makes for one session.
#[derive(Debug)]
pub struct KeyPair {
    pub encryption_key: EncryptionKey,
    pub decryption_key: DecryptionKey,
}

/// The hash of a public key, as a session URL carries it.
#[derive(Debug)]
pub struct PublicKeyHash(pub String);

impl View for PublicKeyHash {
    type V = Seq<char>;

    open spec fn view(&self) -> Seq<char> {
        self.0@
    }
}

impl Clone for PublicKeyHash {
    fn clone(&self) -> (copy: Self)
        ensures
            copy == *self,
    {
        PublicKeyHash(self.0.clone())
    }
}

/// The hash that a session starts from, and the role that follows from it.
#[derive(Debug)]
pub struct InitHash {
    pub hash: String,
    pub is_host: bool,
}

/// A copied key has the bytes of the key, and a copied hash its text.
pub proof fn law_copied_keys_are_the_same(
    shared: HandshakeKey,
    public: EncryptionKey,
    private: DecryptionKey,
    hash: PublicKeyHash,
    shared_copy: HandshakeKey,
    public_copy: EncryptionKey,
    private_copy: DecryptionKey,
    hash_copy: PublicKeyHash,
)
    requires
        call_ensures(HandshakeKey::clone, (&shared,), shared_copy),
        call_ensures(EncryptionKey::clone, (&public,), public_copy),
        call_ensures(DecryptionKey::clone, (&private,), private_copy),
        call_ensures(PublicKeyHash::clone, (&hash,), hash_copy),
    ensures
        shared_copy.bytes@ == shared.bytes@,
        public_copy.bytes@ == public.bytes@,
        private_copy.bytes@ == private.bytes@,
        hash_copy.0@ == hash.0@,
{
}

} // verus!
