//! Sealed message bodies: the keys of a codec, and what becomes of a body that cannot be sealed or
//! opened.

use std::marker::PhantomData;

use vstd::prelude::*;

use crate::status::{status, Code, Status};
use crate::text::copy_bytes;

verus! {

/// The setting that names the service's public key.
pub const ENV_PUB: &'static str = "PQC_PUBLIC_KEY";

/// The setting that names the service's private key.
pub const ENV_PRIV: &'static str = "PQC_PRIVATE_KEY";

/// Whether sealing is on: both keys are given.
pub fn enabled(public_key: bool, private_key: bool) -> (out: bool)
    ensures
        out == (public_key && private_key),
{
    public_key && private_key
}

/// A codec that seals what it sends to the peer's public key and opens what it receives with its
/// own private key.
pub struct KyberCodec<E, D> {
    seal_to: Vec<u8>,
    open_with: Vec<u8>,
    marker: PhantomData<(E, D)>,
}

/// Seals what is sent.
pub struct KyberEncoder<E> {
    seal_to: Vec<u8>,
    marker: PhantomData<E>,
}

/// Opens what is received.
pub struct KyberDecoder<D> {
    open_with: Vec<u8>,
    marker: PhantomData<D>,
}

impl<E, D> KyberCodec<E, D> {
    /// The key that bodies are sealed to.
    pub closed spec fn peer_key(&self) -> Seq<u8> {
        self.seal_to@
    }

    /// The key that bodies are opened with.
    pub closed spec fn own_key(&self) -> Seq<u8> {
        self.open_with@
    }

    /// A codec with the given keys.
    pub fn new(seal_to: Vec<u8>, open_with: Vec<u8>) -> (out: Self)
        ensures
            out.peer_key() == seal_to@,
            out.own_key() == open_with@,
    {
        KyberCodec { seal_to, open_with, marker: PhantomData }
    }

    /// The sealing half, with the same key.
    pub fn encoder(&self) -> (out: KyberEncoder<E>)
        ensures
            out.key() == self.peer_key(),
    {
        KyberEncoder { seal_to: copy_bytes(self.seal_to.as_slice()), marker: PhantomData }
    }

    /// The opening half, with the same key.
    pub fn decoder(&self) -> (out: KyberDecoder<D>)
        ensures
            out.key() == self.own_key(),
    {
        KyberDecoder { open_with: copy_bytes(self.open_with.as_slice()), marker: PhantomData }
    }
}

impl<E> KyberEncoder<E> {
    /// The key that bodies are sealed to.
    pub closed spec fn key(&self) -> Seq<u8> {
        self.seal_to@
    }

    /// The key that bodies are sealed to.
    pub fn seal_to(&self) -> (out: &Vec<u8>)
        ensures
            out@ == self.key(),
    {
        &self.seal_to
    }

    /// What is sent for a body that was sealed, or could not be.
    pub fn encode(&self, sealed: Result<Vec<u8>, String>) -> (out: Result<Vec<u8>, Status>)
        ensures
            match sealed {
                Ok(bytes) => out == Ok::<Vec<u8>, Status>(bytes),
                Err(text) => out matches Err(e) && e@ == status(
                    Code::Internal,
                    "pqc seal: "@ + text@,
                ),
            },
    {
        match sealed {
            Ok(bytes) => Ok(bytes),
            Err(text) => Err(Status::with(Code::Internal, "pqc seal: ", text.as_str())),
        }
    }
}

/// What became of a body that was received.
pub enum Opened<M> {
    /// It was opened and holds a message.
    Message(M),
    /// It cannot be opened.
    Sealed(String),
    /// It was opened and holds no message.
    Unreadable(String),
}

impl<D> KyberDecoder<D> {
    /// The key that bodies are opened with.
    pub closed spec fn key(&self) -> Seq<u8> {
        self.open_with@
    }

    /// The key that bodies are opened with.
    pub fn open_with(&self) -> (out: &Vec<u8>)
        ensures
            out@ == self.key(),
    {
        &self.open_with
    }

    /// The sealed body in what was received; nothing received is no message yet.
    pub fn frame(&self, received: &[u8]) -> (out: Option<Vec<u8>>)
        ensures
            match out {
                Some(sealed) => received@.len() > 0 && sealed@ == received@,
                None => received@.len() == 0,
            },
    {
        if received.len() == 0 {
            None
        } else {
            Some(copy_bytes(received))
        }
    }

    /// The message of a body that was received, if there was one.
    pub fn decode(&self, opened: Option<Opened<D>>) -> (out: Result<Option<D>, Status>)
        ensures
            match opened {
                None => out == Ok::<Option<D>, Status>(None),
                Some(Opened::Message(m)) => out == Ok::<Option<D>, Status>(Some(m)),
                Some(Opened::Sealed(text)) => out matches Err(e) && e@ == status(
                    Code::Internal,
                    "pqc open: "@ + text@,
                ),
                Some(Opened::Unreadable(text)) => out matches Err(e) && e@ == status(
                    Code::Internal,
                    "decode: "@ + text@,
                ),
            },
    {
        match opened {
            None => Ok(None),
            Some(Opened::Message(m)) => Ok(Some(m)),
            Some(Opened::Sealed(text)) => Err(
                Status::with(Code::Internal, "pqc open: ", text.as_str()),
            ),
            Some(Opened::Unreadable(text)) => Err(
                Status::with(Code::Internal, "decode: ", text.as_str()),
            ),
        }
    }
}

} // verus!
