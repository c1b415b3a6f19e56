//! The client that exporter and flusher share, and what is left once it is shut down.
use crate::error::HoneycombExporterError;
use vstd::prelude::*;

verus! {

/// Holds the client until it is shut down.
pub struct ClientSlot<C> {
    pub client: Option<C>,
}

/// What is left of a slot once it is shut down: it is empty for good.
pub open spec fn after_shutdown<C>(slot: ClientSlot<C>) -> ClientSlot<C> {
    ClientSlot { client: None }
}

impl<C> ClientSlot<C> {
    /// A slot with a client.
    pub fn new(client: C) -> (r: Self)
        ensures
            r.client == Some(client),
    {
        ClientSlot { client: Some(client) }
    }

    /// Whether the client is there.
    pub fn is_open(&self) -> (r: bool)
        ensures
            r <==> self.client is Some,
    {
        self.client.is_some()
    }

    /// The client that a flush is to ask. It stays in its slot, as the flush leaves it.
    pub fn flush_target(&mut self) -> (r: Result<&mut C, HoneycombExporterError>)
        ensures
            old(self).client is None ==> r == Err::<&mut C, HoneycombExporterError>(
                HoneycombExporterError::Shutdown,
            ) && *final(self) == *old(self),
            old(self).client is Some ==> r is Ok && *(r->Ok_0) == old(self).client->0
                && final(self).client == Some(*final(r->Ok_0)),
    {
        match &mut self.client {
            Some(client) => Ok(client),
            None => Err(HoneycombExporterError::Shutdown),
        }
    }

    /// Gives up the client, for it to be closed. There is none the second time.
    pub fn shutdown(&mut self) -> (r: Option<C>)
        ensures
            r == old(self).client,
            *final(self) == after_shutdown(*old(self)),
    {
        self.client.take()
    }
}

/// Flushes the client on demand, and gives access to its responses.
///
/// `L` is the shared client, and `R` receives the responses.
pub struct HoneycombFlusher<L, R> {
    client: L,
    responses: R,
}

/// The result of a flush: `reply` is what the client answered, if it is there.
pub open spec fn flush_result(reply: Option<Result<(), libhoney::Error>>) -> Result<
    (),
    HoneycombExporterError,
> {
    match reply {
        None => Err(HoneycombExporterError::Shutdown),
        Some(Err(error)) => Err(HoneycombExporterError::Honeycomb(error)),
        Some(Ok(_)) => Ok(()),
    }
}

/// Whether a flush can turn a slot into another one, where `reply` is what the
/// client answered: a client that is there is asked and stays in its slot, and
/// one that is gone is not asked.
pub open spec fn flushes<C>(
    before: ClientSlot<C>,
    after: ClientSlot<C>,
    reply: Option<Result<(), libhoney::Error>>,
) -> bool {
    match before.client {
        Some(_) => reply is Some && after.client is Some,
        None => reply is None && after == before,
    }
}

impl<L, R> HoneycombFlusher<L, R> {
    /// The shared client.
    pub closed spec fn spec_client(&self) -> L {
        self.client
    }

    /// The receiver of the responses.
    pub closed spec fn spec_responses(&self) -> R {
        self.responses
    }

    pub fn new(client: L, responses: R) -> (r: Self)
        ensures
            r.spec_client() == client,
            r.spec_responses() == responses,
    {
        HoneycombFlusher { client, responses }
    }

    /// The shared client.
    pub fn client(&self) -> (r: &L)
        ensures
            *r == self.spec_client(),
    {
        &self.client
    }

    /// Flushes the client of a slot, where `ask` has the client flush.
    ///
    /// The client stays in its slot, as `ask` leaves it, whatever it answers. A
    /// client that is gone is not asked.
    pub fn flush<C, F: FnOnce(&mut C) -> Result<(), libhoney::Error>>(
        &self,
        slot: &mut ClientSlot<C>,
        ask: F,
    ) -> (r: Result<(), HoneycombExporterError>)
        requires
            forall|client: &mut C|
                old(slot).client == Some(*client) ==> #[trigger] call_requires(ask, (client,)),
        ensures
            exists|reply: Option<Result<(), libhoney::Error>>| #[trigger]
                flushes(*old(slot), *final(slot), reply) && r == flush_result(reply),
            old(slot).client is Some ==> exists|client: &mut C, reply: Result<(), libhoney::Error>|
                #[trigger] call_ensures(ask, (client,), reply) && old(slot).client == Some(*client)
                    && final(slot).client == Some(*final(client)) && r == flush_result(Some(reply)),
    {
        match slot.flush_target() {
            Ok(client) => {
                let reply = ask(client);
                assert(flushes(*old(slot), *slot, Some(reply)));
                Self::flush_outcome(reply)
            },
            Err(error) => {
                assert(flushes(*old(slot), *slot, None));
                Err(error)
            },
        }
    }

    /// The result of a flush, given what the client answered.
    pub fn flush_outcome(reply: Result<(), libhoney::Error>) -> (r: Result<
        (),
        HoneycombExporterError,
    >)
        ensures
            r == flush_result(Some(reply)),
            reply is Ok ==> r is Ok,
            reply matches Err(error) ==> r == Err::<(), HoneycombExporterError>(
                HoneycombExporterError::Honeycomb(error),
            ),
    {
        match reply {
            Err(error) => Err(HoneycombExporterError::Honeycomb(error)),
            Ok(_) => Ok(()),
        }
    }

    /// The receiver of the responses.
    pub fn responses(&self) -> (r: &R)
        ensures
            *r == self.spec_responses(),
    {
        &self.responses
    }
}

impl<L: Clone, R: Clone> Clone for HoneycombFlusher<L, R> {
    fn clone(&self) -> (r: Self)
        ensures
            cloned(self.spec_client(), r.spec_client()),
            cloned(self.spec_responses(), r.spec_responses()),
    {
        HoneycombFlusher { client: self.client.clone(), responses: self.responses.clone() }
    }
}

/// A flush succeeds exactly if the client is there and succeeds. It fails with
/// the client's error, or because of the shutdown if the client is gone.
pub proof fn a_flush_tells_what_the_client_answered(reply: Option<Result<(), libhoney::Error>>)
    ensures
        flush_result(reply) is Ok <==> reply is Some && reply->0 is Ok,
        reply is Some && reply->0 is Err ==> flush_result(reply) == Err::<
            (),
            HoneycombExporterError,
        >(HoneycombExporterError::Honeycomb(reply->0->Err_0)),
        reply is None ==> flush_result(reply) == Err::<(), HoneycombExporterError>(
            HoneycombExporterError::Shutdown,
        ),
{
}

} // verus!
