//! Process signals delivered to the server, and the registry of one-shot
//! listeners that are woken when one arrives.
use vstd::prelude::*;

verus! {

/// Different types of process signals.
#[derive(PartialEq, Eq, Clone, Copy, Debug, Structural)]
pub enum Signal {
    /// SIGHUP
    Hup,
    /// SIGINT
    Int,
    /// SIGTERM
    Term,
    /// SIGQUIT
    Quit,
}

/// The number that the operating system gives each signal (Linux numbering).
pub open spec fn raw_of(sig: Signal) -> i32 {
    match sig {
        Signal::Hup => 1,
        Signal::Int => 2,
        Signal::Quit => 3,
        Signal::Term => 15,
    }
}

/// The signal that a raw signal number stands for, if it is one of the four
/// that the server listens to.
pub open spec fn signal_of_raw(raw: i32) -> Option<Signal> {
    if raw == raw_of(Signal::Hup) {
        Some(Signal::Hup)
    } else if raw == raw_of(Signal::Int) {
        Some(Signal::Int)
    } else if raw == raw_of(Signal::Term) {
        Some(Signal::Term)
    } else if raw == raw_of(Signal::Quit) {
        Some(Signal::Quit)
    } else {
        None
    }
}

/// Relies on signal_hook::consts::signal::{SIGHUP, SIGINT, SIGTERM, SIGQUIT},
/// which re-export libc's values: 1, 2, 15 and 3 on Linux.
#[verifier::external_body]
fn raw_signal(sig: Signal) -> (r: i32)
    ensures
        r == raw_of(sig),
{
    match sig {
        Signal::Hup => signal_hook::consts::signal::SIGHUP,
        Signal::Int => signal_hook::consts::signal::SIGINT,
        Signal::Term => signal_hook::consts::signal::SIGTERM,
        Signal::Quit => signal_hook::consts::signal::SIGQUIT,
    }
}

impl Signal {
    /// Maps a raw signal number to the signal it stands for; other numbers
    /// give `None`.
    pub fn from_raw(raw: i32) -> (r: Option<Signal>)
        ensures
            r == signal_of_raw(raw),
            r matches Some(s) ==> raw_of(s) == raw,
    {
        if raw == raw_signal(Signal::Hup) {
            Some(Signal::Hup)
        } else if raw == raw_signal(Signal::Int) {
            Some(Signal::Int)
        } else if raw == raw_signal(Signal::Term) {
            Some(Signal::Term)
        } else if raw == raw_signal(Signal::Quit) {
            Some(Signal::Quit)
        } else {
            None
        }
    }

    /// The raw number of this signal.
    pub fn to_raw(&self) -> (r: i32)
        ensures
            r == raw_of(*self),
    {
        raw_signal(*self)
    }

    /// Whether listening stops after this signal: an interrupt or a quit
    /// ends the listener, a hang-up or a terminate does not.
    pub fn ends_listening(&self) -> (r: bool)
        ensures
            r == (*self == Signal::Int || *self == Signal::Quit),
    {
        match self {
            Signal::Int | Signal::Quit => true,
            _ => false,
        }
    }
}

/// What the signal listener does with one raw signal number.
#[derive(PartialEq, Eq, Clone, Copy, Debug, Structural)]
pub enum SignalAction {
    /// The number is none of the four known signals: wait for the next one.
    Ignore,
    /// Tell the server and every registered listener of `signal`; stop
    /// listening afterwards when `stop` holds.
    Notify { signal: Signal, stop: bool },
}

/// Decides what the listener does on receipt of the raw signal `raw`.
pub fn on_raw_signal(raw: i32) -> (r: SignalAction)
    ensures
        signal_of_raw(raw) is None ==> r == SignalAction::Ignore,
        signal_of_raw(raw) matches Some(s) ==> r == (SignalAction::Notify {
            signal: s,
            stop: s == Signal::Int || s == Signal::Quit,
        }),
{
    match Signal::from_raw(raw) {
        None => SignalAction::Ignore,
        Some(s) => SignalAction::Notify { signal: s, stop: s.ends_listening() },
    }
}

#[verifier::external_type_specification]
#[verifier::external_body]
#[verifier::reject_recursive_types(T)]
pub struct ExOneshotSender<T>(oneshot::Sender<T>);

/// Relies on oneshot::Sender::send: hands the signal to the receiving end;
/// whether it arrives depends on whether the receiver is still alive, so
/// nothing is stated of the result.
#[verifier::external_body]
fn send_signal(tx: oneshot::Sender<Signal>, sig: Signal) -> (delivered: bool) {
    tx.send(sig).is_ok()
}

/// The number of `true` entries of `s`.
pub open spec fn count_true(s: Seq<bool>) -> nat
    decreases s.len(),
{
    if s.len() == 0 {
        0
    } else {
        count_true(s.drop_last()) + if s.last() { 1nat } else { 0nat }
    }
}

/// Counts the sends that reached a listener.
pub fn count_delivered(results: &Vec<bool>) -> (r: usize)
    ensures
        r == count_true(results@),
{
    let mut r: usize = 0;
    let mut i: usize = 0;
    while i < results.len()
        invariant
            i <= results@.len(),
            r == count_true(results@.subrange(0, i as int)),
            r <= i,
        decreases results@.len() - i,
    {
        proof {
            assert(results@.subrange(0, i + 1).drop_last() =~= results@.subrange(0, i as int));
        }
        if results[i] {
            r = r + 1;
        }
        i = i + 1;
    }
    proof {
        assert(results@.subrange(0, i as int) =~= results@);
    }
    r
}

/// The listeners waiting for the next signal. Each is woken at most once:
/// after a signal the registry is empty and listeners register again.
pub struct SignalHandlers {
    senders: Vec<oneshot::Sender<Signal>>,
}

impl SignalHandlers {
    /// The listeners registered, in order of registration.
    pub closed spec fn senders(&self) -> Seq<oneshot::Sender<Signal>> {
        self.senders@
    }

    /// The number of listeners registered.
    pub open spec fn len(&self) -> nat {
        self.senders().len()
    }

    pub fn new() -> (r: SignalHandlers)
        ensures
            r.senders() == Seq::<oneshot::Sender<Signal>>::empty(),
    {
        SignalHandlers { senders: Vec::new() }
    }

    /// The number of listeners registered.
    pub fn pending(&self) -> (r: usize)
        ensures
            r == self.len(),
    {
        self.senders.len()
    }

    /// Registers one listener, the sending end of its channel.
    pub fn register(&mut self, tx: oneshot::Sender<Signal>)
        ensures
            final(self).senders() == old(self).senders().push(tx),
    {
        self.senders.push(tx);
    }

    /// Takes every registered listener out, in order of registration, and
    /// leaves the registry empty.
    pub fn take_all(&mut self) -> (taken: Vec<oneshot::Sender<Signal>>)
        ensures
            taken@ == old(self).senders(),
            final(self).senders() == Seq::<oneshot::Sender<Signal>>::empty(),
    {
        let taken = self.senders.split_off(0);
        proof {
            assert(self.senders@ =~= Seq::<oneshot::Sender<Signal>>::empty());
            assert(taken@ =~= old(self).senders@);
        }
        taken
    }

    /// Sends `sig` to every listener registered before the call, once each,
    /// in order of registration, and empties the registry. Returns how many
    /// sends reached a listener that was still waiting.
    pub fn notify(&mut self, sig: Signal) -> (delivered: usize)
        ensures
            final(self).senders() == Seq::<oneshot::Sender<Signal>>::empty(),
            delivered <= old(self).len(),
    {
        let mut taken = self.take_all();
        let mut results: Vec<bool> = Vec::new();
        let ghost all = taken@;
        while taken.len() > 0
            invariant
                results@.len() + taken@.len() == all.len(),
            decreases taken@.len(),
        {
            let tx = taken.remove(0);
            results.push(send_signal(tx, sig));
        }
        let delivered = count_delivered(&results);
        proof {
            lemma_count_true_bound(results@);
        }
        delivered
    }
}

proof fn lemma_count_true_bound(s: Seq<bool>)
    ensures
        count_true(s) <= s.len(),
    decreases s.len(),
{
    if s.len() > 0 {
        lemma_count_true_bound(s.drop_last());
    }
}

} // verus!
