use vstd::prelude::*;
use crate::buffer::OsIpcSharedMemory;
use crate::channel::{channel, OsIpcReceiver, OsIpcSender, OsOpaqueIpcChannel};
use crate::error::ChannelError;

verus! {

#[verifier::external_type_specification]
#[verifier::external_body]
#[verifier::reject_recursive_types(T)]
pub struct ExCrossbeamSender<T>(crossbeam_channel::Sender<T>);

#[verifier::external_type_specification]
#[verifier::external_body]
#[verifier::reject_recursive_types(T)]
pub struct ExCrossbeamReceiver<T>(crossbeam_channel::Receiver<T>);

/// Relies on crossbeam_channel::Sender::clone: the clone feeds the same
/// queue as the original. Nothing is assumed of the cloned value.
pub assume_specification<T>[ <crossbeam_channel::Sender<T> as Clone>::clone ](
    s: &crossbeam_channel::Sender<T>,
) -> crossbeam_channel::Sender<T>;

/// Relies on crossbeam_channel::Receiver::clone: the clone reads from the
/// same queue as the original. Nothing is assumed of the cloned value.
pub assume_specification<T>[ <crossbeam_channel::Receiver<T> as Clone>::clone ](
    r: &crossbeam_channel::Receiver<T>,
) -> crossbeam_channel::Receiver<T>;

/// Relies on crossbeam_channel::unbounded: a connected pair of endpoints
/// over a fresh, empty, unbounded queue of rendezvous signals.
#[verifier::external_body]
fn new_signal_channel() -> (crossbeam_channel::Sender<bool>, crossbeam_channel::Receiver<bool>) {
    crossbeam_channel::unbounded::<bool>()
}

/// Relies on crossbeam_channel::Sender::send on an unbounded queue: never
/// blocks; the signal is buffered until received, and is thrown away only
/// when every receiving half of the signal queue is gone.
#[verifier::external_body]
fn send_signal(s: &crossbeam_channel::Sender<bool>) {
    let _ = s.send(true);
}

/// Relies on crossbeam_channel::Receiver::recv: blocks until a signal
/// arrives (true) or every sending half of the signal queue is gone (false).
#[verifier::external_body]
fn wait_signal(r: &crossbeam_channel::Receiver<bool>) -> bool {
    r.recv().is_ok()
}

/// Relies on uuid::Uuid::new_v4 and its hyphenated text form: a freshly
/// drawn random 128-bit identifier rendered as a string. The result depends
/// on the random generator, so nothing is assumed of it.
#[verifier::external_body]
fn fresh_name() -> String {
    uuid::Uuid::new_v4().to_string()
}

/// What a published name maps to: a sender bound to the bootstrapped channel
/// and the rendezvous signal both parties use. The signal queue buffers, so
/// several connectors may signal before the server accepts.
#[derive(Clone)]
pub(crate) struct ServerRecord {
    pub(crate) sender: OsIpcSender,
    pub(crate) conn_sender: crossbeam_channel::Sender<bool>,
    pub(crate) conn_receiver: crossbeam_channel::Receiver<bool>,
}

impl ServerRecord {
    fn new(sender: OsIpcSender) -> ServerRecord {
        let (tx, rx) = new_signal_channel();
        ServerRecord { sender, conn_sender: tx, conn_receiver: rx }
    }

    /// Blocks until a connector has signalled. True exactly when a signal
    /// arrived rather than the signal queue closing; the record itself keeps
    /// a sending half alive, so in practice this waits for a connector.
    fn accept(&self) -> bool {
        wait_signal(&self.conn_receiver)
    }

    fn connect(&self) {
        send_signal(&self.conn_sender)
    }
}

/// The table of published one-shot servers, shared by every clone of one
/// registry and passed explicitly to the constructors that use it. Many
/// threads may publish, look up and withdraw names at once, so the table's
/// contents are shared, concurrently mutable state: no contract names them,
/// and the verified callers handle every outcome of a lookup.
///
/// Verus cannot look inside the lock, so the whole holder is opaque and the
/// table is used only through the trusted operations below, each of which
/// takes the lock for its own duration. None of them panics while holding
/// the lock, so the lock is never poisoned.
#[verifier::external_body]
pub struct OneShotRegistry {
    table: std::sync::Arc<std::sync::Mutex<std::collections::HashMap<String, ServerRecord>>>,
}

impl Clone for OneShotRegistry {
    /// Relies on std::sync::Arc::clone: the clone shares the same table.
    #[verifier::external_body]
    fn clone(&self) -> Self {
        OneShotRegistry { table: std::sync::Arc::clone(&self.table) }
    }
}

impl OneShotRegistry {
    /// Relies on std::sync::Arc::new, std::sync::Mutex::new and
    /// std::collections::HashMap::new: a fresh registry whose table holds no
    /// published name.
    #[verifier::external_body]
    pub fn new() -> OneShotRegistry {
        OneShotRegistry {
            table: std::sync::Arc::new(std::sync::Mutex::new(std::collections::HashMap::new())),
        }
    }

    /// Relies on std::sync::Mutex::lock and std::collections::HashMap::insert:
    /// stores the record under the name, replacing any record already there.
    #[verifier::external_body]
    pub(crate) fn publish(&self, name: &String, record: ServerRecord) {
        self.table.lock().unwrap().insert(name.clone(), record);
    }

    /// Relies on std::sync::Mutex::lock and std::collections::HashMap::get:
    /// a copy of the record published under the name, or None when the name
    /// is unpublished or already withdrawn.
    #[verifier::external_body]
    pub(crate) fn lookup(&self, name: &String) -> Option<ServerRecord> {
        self.table.lock().unwrap().get(name).cloned()
    }

    /// Relies on std::sync::Mutex::lock and std::collections::HashMap::remove:
    /// takes the record published under the name out of the table, so that
    /// no later lookup finds it.
    #[verifier::external_body]
    pub(crate) fn withdraw(&self, name: &String) -> Option<ServerRecord> {
        self.table.lock().unwrap().remove(name)
    }
}

/// A single-use rendezvous point. `new` publishes a fresh channel under a
/// collision-free name; one `connect` against that name obtains a sender for
/// the channel and signals; `accept` waits for that signal, retires the
/// name, and hands back the receiver together with the first message.
pub struct OsIpcOneShotServer {
    receiver: OsIpcReceiver,
    name: String,
    registry: OneShotRegistry,
}

impl OsIpcOneShotServer {
    /// True while the server still owns its channel's receiving resource;
    /// `new` establishes it, and `accept` requires it.
    pub closed spec fn is_live(&self) -> bool {
        self.receiver.is_live()
    }

    /// The name the server was published under.
    pub closed spec fn name_spec(&self) -> Seq<char> {
        self.name@
    }

    /// Builds a fresh channel, publishes its sender in `registry` under a
    /// newly generated name, and returns the server (wrapping the receiver)
    /// together with that name for out-of-band publication. Cannot fail.
    pub fn new(registry: &OneShotRegistry) -> (r: Result<
        (OsIpcOneShotServer, String),
        ChannelError,
    >)
        ensures
            r is Ok,
            r matches Ok(p) ==> p.0.is_live() && p.0.name_spec() == p.1@,
    {
        let (sender, receiver) = match channel() {
            Ok(p) => p,
            Err(e) => return Err(e),
        };
        let name = fresh_name();
        let record = ServerRecord::new(sender);
        registry.publish(&name, record);
        let server = OsIpcOneShotServer {
            receiver,
            name: name.clone(),
            registry: registry.clone(),
        };
        Ok((server, name))
    }

    /// Waits until a connector has signalled, retires the published name so
    /// no later connect finds it, then receives the first message, returning
    /// the channel's receiver for continued use along with that message.
    ///
    /// A name absent from the registry marks a caller bug; it — like the
    /// rendezvous signal failing, which a well-formed registry record rules
    /// out — is reported as the typed error Unknown rather than left to fail
    /// hard. An orderly close of the bootstrapped channel before its first
    /// message surfaces as ChannelClosed. No other error occurs.
    pub fn accept(self) -> (r: Result<
        (OsIpcReceiver, Vec<u8>, Vec<OsOpaqueIpcChannel>, Vec<OsIpcSharedMemory>),
        ChannelError,
    >)
        requires
            self.is_live(),
        ensures
            r matches Ok(t) ==> t.0.is_live(),
            r matches Err(e) ==> e == ChannelError::UnknownError
                || e == ChannelError::ChannelClosedError,
    {
        let record = match self.registry.lookup(&self.name) {
            Some(record) => record,
            None => return Err(ChannelError::UnknownError),
        };
        let signalled = record.accept();
        let _ = self.registry.withdraw(&self.name);
        if !signalled {
            return Err(ChannelError::UnknownError);
        }
        match self.receiver.recv() {
            Ok((data, channels, shmems)) => Ok((self.receiver, data, channels, shmems)),
            Err(e) => Err(e),
        }
    }
}

impl OsIpcSender {
    /// Looks up `name` in `registry`, signals the server waiting on it, and
    /// returns a sender bound to the bootstrapped channel.
    ///
    /// A name never published, or already retired by an accept, is rejected
    /// with the typed error Unknown — the one failure this call can report —
    /// rather than treated as an enforced precondition, so a racing late
    /// connector gets an answer instead of hanging.
    pub fn connect(registry: &OneShotRegistry, name: String) -> (r: Result<
        OsIpcSender,
        ChannelError,
    >)
        ensures
            r matches Err(e) ==> e == ChannelError::UnknownError,
    {
        match registry.lookup(&name) {
            Some(record) => {
                record.connect();
                Ok(record.sender)
            },
            None => Err(ChannelError::UnknownError),
        }
    }
}

} // verus!
