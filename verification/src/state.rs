use vstd::prelude::*;
use vstd::string::*;
use crate::errors::CommandError;
use crate::manifest::AuthEntry;

verus! {

/// Single-assignment update of a slot: an empty slot takes the value, a
/// filled slot keeps what it holds.
pub open spec fn fill<T>(slot: Option<T>, v: T) -> Option<T> {
    if slot is None {
        Some(v)
    } else {
        slot
    }
}

/// Whether an attempt to fill `slot` succeeds.
pub open spec fn fill_succeeds<T>(slot: Option<T>) -> bool {
    slot is None
}

/// The slot after the first `n` of the attempts `vs`, starting empty.
pub open spec fn slot_after<T>(vs: Seq<T>, n: int) -> Option<T>
    recommends
        0 <= n <= vs.len(),
    decreases n,
{
    if n <= 0 {
        None
    } else {
        fill(slot_after(vs, n - 1), vs[n - 1])
    }
}

proof fn lemma_fill_run_holds_first<T>(vs: Seq<T>, n: int)
    requires
        1 <= n <= vs.len(),
    ensures
        slot_after(vs, n) == Some(vs[0]),
    decreases n,
{
    if n == 1 {
        assert(slot_after(vs, 0) is None);
    } else {
        lemma_fill_run_holds_first(vs, n - 1);
    }
}

/// Of any run of fill attempts on one slot, starting empty, exactly the
/// first succeeds: the first attempt sees the empty slot, every later
/// attempt sees a filled one and fails, and the slot ends holding the first
/// attempt's value. Concurrent attempts serialize into such a run, so at
/// most one initialization ever wins and its connection is what the slot
/// keeps.
pub proof fn lemma_first_fill_wins<T>(vs: Seq<T>)
    requires
        vs.len() >= 1,
    ensures
        fill_succeeds(slot_after(vs, 0)),
        forall|i: int| 1 <= i < vs.len() ==> !fill_succeeds(#[trigger] slot_after(vs, i)),
        slot_after(vs, vs.len() as int) == Some(vs[0]),
{
    assert forall|i: int| 1 <= i < vs.len() implies !fill_succeeds(
        #[trigger] slot_after(vs, i),
    ) by {
        lemma_fill_run_holds_first(vs, i);
    }
    lemma_fill_run_holds_first(vs, vs.len() as int);
}

/// The process-wide state shared by every command handler: two independent
/// single-assignment slots — the live connection and the authorization
/// manifest — and the logical stop flag layered on top of them.
///
/// Each slot goes from empty to filled at most once and never reverts; a
/// second fill attempt fails and leaves the slot as it was. The stop flag
/// records that cooperative cancellation of the connection's internal
/// activity has been requested; it does not empty the connection slot.
///
/// The connection handle type is a parameter: the library never looks inside
/// it, it only decides which handle a command may act on.
pub struct AppState<C> {
    pub(crate) connection_slot: Option<C>,
    pub(crate) manifest_slot: Option<Vec<AuthEntry>>,
    pub(crate) stop_requested: bool,
}

impl<C> AppState<C> {
    /// The connection slot's content.
    pub open(crate) spec fn connection(self) -> Option<C> {
        self.connection_slot
    }

    /// The manifest slot's content.
    pub open(crate) spec fn manifest(self) -> Option<Vec<AuthEntry>> {
        self.manifest_slot
    }

    /// Whether cancellation of the connection has been requested.
    pub open(crate) spec fn stop_was_requested(self) -> bool {
        self.stop_requested
    }

    /// Whether a connection is available to the commands.
    pub open spec fn connection_ready(self) -> bool {
        self.connection() is Some
    }

    /// Whether the manifest has been loaded.
    pub open spec fn manifest_ready(self) -> bool {
        self.manifest() is Some
    }

    /// The loaded manifest entries; the empty sequence while the manifest
    /// slot is empty.
    pub open(crate) spec fn manifest_entries(self) -> Seq<AuthEntry> {
        match self.manifest_slot {
            Some(m) => m@,
            None => Seq::empty(),
        }
    }

    /// The state reached by a stop request: the same slots, with
    /// cancellation recorded.
    pub open(crate) spec fn after_stop(self) -> AppState<C> {
        AppState { stop_requested: true, ..self }
    }

    /// A fresh state: both slots empty, no stop requested. Every command
    /// that needs a slot fails on it until an initialization succeeds.
    pub fn new() -> (r: AppState<C>)
        ensures
            r.connection() is None,
            r.manifest() is None,
            !r.stop_was_requested(),
    {
        AppState { connection_slot: None, manifest_slot: None, stop_requested: false }
    }

    /// Fill the connection slot with a freshly built connection.
    ///
    /// Exactly the single-assignment discipline: the first call takes the
    /// slot, every later call fails with `AlreadyInitialized` and changes
    /// nothing. The manifest slot and the stop flag are untouched either way.
    pub fn install_connection(&mut self, connection: C) -> (r: Result<(), CommandError>)
        ensures
            final(self).connection() == fill(old(self).connection(), connection),
            final(self).manifest() == old(self).manifest(),
            final(self).stop_was_requested() == old(self).stop_was_requested(),
            r is Ok <==> fill_succeeds(old(self).connection()),
            match r {
                Ok(_) => final(self).connection() == Some(connection),
                Err(e) => {
                    &&& e == CommandError::AlreadyInitialized
                    &&& final(self).connection() == old(self).connection()
                },
            },
    {
        if self.connection_slot.is_some() {
            Err(CommandError::AlreadyInitialized)
        } else {
            self.connection_slot = Some(connection);
            Ok(())
        }
    }

    /// Finish an initialization whose connection is already installed, with
    /// the outcome of loading the manifest file.
    ///
    /// A load failure passes through unchanged and leaves the state as it
    /// was: the connection stays installed and the manifest slot stays
    /// empty, the documented partial outcome. A loaded manifest fills the
    /// manifest slot once; a second fill fails with `AlreadyInitialized`.
    pub fn finish_init(&mut self, loaded: Result<Vec<AuthEntry>, CommandError>) -> (r: Result<
        String,
        CommandError,
    >)
        ensures
            final(self).connection() == old(self).connection(),
            final(self).stop_was_requested() == old(self).stop_was_requested(),
            match loaded {
                Err(e) => {
                    &&& final(self).manifest() == old(self).manifest()
                    &&& r == Err::<String, CommandError>(e)
                },
                Ok(entries) => {
                    &&& final(self).manifest() == fill(old(self).manifest(), entries)
                    &&& (r is Ok <==> fill_succeeds(old(self).manifest()))
                    &&& match r {
                        Ok(m) => m@ == "Bridge initialized successfully"@,
                        Err(e) => e == CommandError::AlreadyInitialized,
                    }
                },
            },
    {
        match loaded {
            Err(e) => Err(e),
            Ok(entries) => {
                if self.manifest_slot.is_some() {
                    Err(CommandError::AlreadyInitialized)
                } else {
                    self.manifest_slot = Some(entries);
                    Ok(String::from_str("Bridge initialized successfully"))
                }
            },
        }
    }

    /// The connection a command may act on: the slot's content, or
    /// `NotInitialized` while the slot is empty.
    pub fn connection_ref(&self) -> (r: Result<&C, CommandError>)
        ensures
            r is Ok <==> self.connection_ready(),
            match r {
                Ok(c) => self.connection() == Some(*c),
                Err(e) => e == CommandError::NotInitialized,
            },
    {
        match &self.connection_slot {
            Some(c) => Ok(c),
            None => Err(CommandError::NotInitialized),
        }
    }

    /// Decide the `stop` command: record that cancellation of the
    /// connection's internal activity is requested.
    ///
    /// Fails with `NotInitialized` while no connection exists. On a ready
    /// state it always succeeds — also on every repeated call, since the
    /// slots are untouched — and merely records the request; the connection
    /// slot stays filled. The caller signals the connection named by
    /// [`AppState::connection_ref`] after a success.
    pub fn request_stop(&mut self) -> (r: Result<(), CommandError>)
        ensures
            r is Ok <==> old(self).connection_ready(),
            match r {
                Ok(_) => *final(self) == old(self).after_stop(),
                Err(e) => {
                    &&& e == CommandError::NotInitialized
                    &&& *final(self) == *old(self)
                },
            },
    {
        if self.connection_slot.is_some() {
            self.stop_requested = true;
            Ok(())
        } else {
            Err(CommandError::NotInitialized)
        }
    }

    /// The status string a successful `stop` reports.
    pub fn stop_message() -> (r: String)
        ensures
            r@ == "Bridge stopped successfully"@,
    {
        String::from_str("Bridge stopped successfully")
    }

    /// React to the host shell's closing notification: if a connection
    /// exists, record the cancellation request; otherwise do nothing.
    /// Never an error — the shell is closing either way. Returns whether a
    /// connection exists, so the caller knows to signal it.
    pub fn notice_closing(&mut self) -> (r: bool)
        ensures
            r == old(self).connection_ready(),
            r ==> *final(self) == old(self).after_stop(),
            !r ==> *final(self) == *old(self),
    {
        if self.connection_slot.is_some() {
            self.stop_requested = true;
            true
        } else {
            false
        }
    }
}

/// Stopping is idempotent: a stop request leaves both slots as they were, so
/// a ready state stays ready, and any number of further stop requests reach
/// the very same state and succeed like the first.
pub proof fn lemma_stop_idempotent<C>(s: AppState<C>)
    ensures
        s.after_stop().after_stop() == s.after_stop(),
        s.after_stop().connection() == s.connection(),
        s.after_stop().manifest() == s.manifest(),
        s.after_stop().stop_was_requested(),
        s.connection_ready() ==> s.after_stop().connection_ready(),
{
}

} // verus!
