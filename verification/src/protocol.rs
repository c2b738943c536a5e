//! The decision logic of the actor protocol: one worker exclusively owns a
//! connection's driver handle and serves commands from a queue; a transaction
//! temporarily takes that ownership over. The functions here decide, for each
//! state and command, what the worker does and which state it enters next;
//! the loop that carries commands and replies runs outside this library and
//! consults these decisions.

use vstd::prelude::*;

verus! {

/// Where a connection's worker stands.
#[derive(Clone, Copy, PartialEq, Eq, Structural, Debug)]
pub enum ConnState {
    /// The worker serves commands from the connection's own queue.
    Ready,
    /// An open transaction owns command processing; the connection's own
    /// commands wait until it resolves.
    Delegated,
    /// The worker's loop has exited; nothing is served any more.
    Stopped,
}

/// The kind of command a connection's worker can receive.
#[derive(Clone, Copy, PartialEq, Eq, Structural, Debug)]
pub enum ConnOp {
    /// Run a statement that returns no rows.
    Execute,
    /// Run a statement and stream its rows.
    Query,
    /// Begin a transaction and hand command processing to it.
    Transaction,
    /// Exit the loop without further driver calls.
    Shutdown,
}

/// What the worker does with one command.
#[derive(Clone, Copy, PartialEq, Eq, Structural, Debug)]
pub enum ConnDecision {
    /// Perform the command's driver work now.
    Serve,
    /// Leave the command queued until the open transaction resolves.
    Defer,
    /// Answer that the actor is unavailable.
    Reject,
}

/// The connection worker's transition map: what each command gets in each
/// state, and the state that follows.
pub open spec fn conn_step_spec(state: ConnState, op: ConnOp) -> (ConnDecision, ConnState) {
    match state {
        ConnState::Ready => match op {
            ConnOp::Execute => (ConnDecision::Serve, ConnState::Ready),
            ConnOp::Query => (ConnDecision::Serve, ConnState::Ready),
            ConnOp::Transaction => (ConnDecision::Serve, ConnState::Delegated),
            ConnOp::Shutdown => (ConnDecision::Serve, ConnState::Stopped),
        },
        ConnState::Delegated => (ConnDecision::Defer, ConnState::Delegated),
        ConnState::Stopped => (ConnDecision::Reject, ConnState::Stopped),
    }
}

/// Decides one command of the connection's queue: a ready worker serves it
/// (a transaction delegates command processing, a shutdown stops the loop),
/// a delegated worker defers it, a stopped worker rejects it.
pub fn conn_step(state: ConnState, op: ConnOp) -> (r: (ConnDecision, ConnState))
    ensures
        r == conn_step_spec(state, op),
{
    match state {
        ConnState::Ready => match op {
            ConnOp::Execute => (ConnDecision::Serve, ConnState::Ready),
            ConnOp::Query => (ConnDecision::Serve, ConnState::Ready),
            ConnOp::Transaction => (ConnDecision::Serve, ConnState::Delegated),
            ConnOp::Shutdown => (ConnDecision::Serve, ConnState::Stopped),
        },
        ConnState::Delegated => (ConnDecision::Defer, ConnState::Delegated),
        ConnState::Stopped => (ConnDecision::Reject, ConnState::Stopped),
    }
}

/// The state the connection's worker returns to once the open transaction
/// has resolved: a delegated worker becomes ready again, any other state is
/// unchanged.
pub fn conn_txn_resolved(state: ConnState) -> (r: ConnState)
    ensures
        state is Delegated ==> r is Ready,
        !(state is Delegated) ==> r == state,
{
    match state {
        ConnState::Delegated => ConnState::Ready,
        other => other,
    }
}

/// Law: while a transaction is open and unresolved, the parent connection
/// serves nothing of its own — every command sent to it is deferred, so none
/// can interleave with the transaction's operations.
pub proof fn lemma_delegated_serves_nothing(op: ConnOp)
    ensures
        conn_step_spec(ConnState::Delegated, op).0 is Defer,
        conn_step_spec(ConnState::Delegated, op).1 is Delegated,
{
}

/// Law: a command sent to a worker whose loop has exited is rejected as
/// unavailable, never served and never left hanging.
pub proof fn lemma_stopped_rejects(op: ConnOp)
    ensures
        conn_step_spec(ConnState::Stopped, op).0 is Reject,
        conn_step_spec(ConnState::Stopped, op).1 is Stopped,
{
}

/// Where a transaction's command loop stands.
#[derive(Clone, Copy, PartialEq, Eq, Structural, Debug)]
pub enum TxnState {
    /// The transaction is open; its commands are being served.
    Active,
    /// The transaction committed; terminal.
    Committed,
    /// The transaction rolled back; terminal.
    RolledBack,
}

/// The kind of command a transaction's command loop can receive.
#[derive(Clone, Copy, PartialEq, Eq, Structural, Debug)]
pub enum TxnOp {
    /// Run a statement that returns no rows, inside the transaction.
    Execute,
    /// Run a statement and stream its rows, inside the transaction.
    Query,
    /// Commit and end the loop.
    Commit,
    /// Roll back and end the loop.
    Rollback,
}

impl TxnState {
    /// A terminal state: the loop has ended and control of command
    /// processing has returned to the parent connection.
    pub open spec fn is_terminal(self) -> bool {
        self is Committed || self is RolledBack
    }
}

/// Whether serving this command ends the transaction's command loop.
pub open spec fn txn_resolves_spec(op: TxnOp) -> bool {
    op is Commit || op is Rollback
}

/// Whether serving this command ends the transaction's command loop: only a
/// commit or a rollback does; a statement never resolves the transaction.
pub fn txn_resolves(op: TxnOp) -> (r: bool)
    ensures
        r == txn_resolves_spec(op),
{
    match op {
        TxnOp::Commit => true,
        TxnOp::Rollback => true,
        TxnOp::Execute => false,
        TxnOp::Query => false,
    }
}

/// The transaction's transition map while Active: statements keep it Active
/// whether they succeed or fail; a rollback ends it rolled back; a commit
/// ends it committed when the driver committed, and rolled back when the
/// driver refused — either way no open unit of work is left behind.
pub open spec fn txn_step_spec(op: TxnOp, succeeded: bool) -> TxnState {
    match op {
        TxnOp::Execute => TxnState::Active,
        TxnOp::Query => TxnState::Active,
        TxnOp::Commit => if succeeded {
            TxnState::Committed
        } else {
            TxnState::RolledBack
        },
        TxnOp::Rollback => TxnState::RolledBack,
    }
}

/// Decides the state after serving one command while Active, given whether
/// the driver call succeeded.
pub fn txn_step(op: TxnOp, succeeded: bool) -> (s: TxnState)
    ensures
        s == txn_step_spec(op, succeeded),
{
    match op {
        TxnOp::Execute => TxnState::Active,
        TxnOp::Query => TxnState::Active,
        TxnOp::Commit => if succeeded {
            TxnState::Committed
        } else {
            TxnState::RolledBack
        },
        TxnOp::Rollback => TxnState::RolledBack,
    }
}

/// The command a transaction facade's destruction path issues: a facade
/// dropped unresolved synchronously requests a rollback and waits for it; a
/// resolved one requests nothing.
pub fn drop_resolution(resolved: bool) -> (r: Option<TxnOp>)
    ensures
        resolved ==> r is None,
        !resolved ==> r == Some(TxnOp::Rollback),
{
    if resolved {
        None
    } else {
        Some(TxnOp::Rollback)
    }
}

/// Law: a statement that fails inside a transaction does not resolve it —
/// the transaction stays Active and the caller decides what follows.
pub proof fn lemma_failed_statement_keeps_active(op: TxnOp, succeeded: bool)
    requires
        !txn_resolves_spec(op),
    ensures
        txn_step_spec(op, succeeded) is Active,
{
}

/// Law: a command that resolves the transaction always ends in a terminal
/// state, whatever the driver answered; one that does not always leaves it
/// Active. The loop therefore ends exactly at resolution.
pub proof fn lemma_resolution_is_terminal(op: TxnOp, succeeded: bool)
    ensures
        txn_resolves_spec(op) <==> txn_step_spec(op, succeeded).is_terminal(),
        !txn_resolves_spec(op) <==> txn_step_spec(op, succeeded) is Active,
{
}

/// Law: dropping a transaction unresolved issues exactly the command an
/// explicit rollback issues, and that command ends the transaction rolled
/// back whatever the driver answered — so the two paths are identical.
pub proof fn lemma_drop_is_rollback(succeeded: bool)
    ensures
        txn_step_spec(TxnOp::Rollback, succeeded) is RolledBack,
        txn_step_spec(TxnOp::Rollback, succeeded) == txn_step_spec(TxnOp::Rollback, !succeeded),
{
}

} // verus!
