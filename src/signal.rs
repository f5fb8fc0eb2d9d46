use tokio::signal::unix::SignalKind;
use vstd::prelude::*;

verus! {

#[verifier::external_type_specification]
#[verifier::external_body]
pub struct ExSignalKind(SignalKind);

/// The operating-system signal number a tokio signal kind listens for.
pub uninterp spec fn signal_number(k: SignalKind) -> i32;

/// Relies on tokio's `SignalKind::as_raw_value`: it returns the signal number
/// the kind was built from.
pub assume_specification[ SignalKind::as_raw_value ](k: &SignalKind) -> (r: i32)
    ensures
        r == signal_number(*k),
;

/// Relies on tokio's `SignalKind::terminate`: the kind built from SIGTERM (15).
pub assume_specification[ SignalKind::terminate ]() -> (r: SignalKind)
    ensures
        signal_number(r) == 15,
;

/// Relies on tokio's `SignalKind::interrupt`: the kind built from SIGINT (2).
pub assume_specification[ SignalKind::interrupt ]() -> (r: SignalKind)
    ensures
        signal_number(r) == 2,
;

/// The operating-system signals that start a graceful shutdown.
#[derive(Clone, Copy, Debug, PartialEq, Eq, Structural)]
pub enum UnixSignal {
    Terminate,
    Interrupt,
}

/// The number of a signal: SIGTERM is 15, SIGINT is 2.
pub open spec fn unix_number(sig: UnixSignal) -> i32 {
    match sig {
        UnixSignal::Terminate => 15,
        UnixSignal::Interrupt => 2,
    }
}

/// The conventional name of a signal, as it is shown to people.
pub open spec fn signal_name(sig: UnixSignal) -> Seq<char> {
    match sig {
        UnixSignal::Terminate => seq!['S', 'I', 'G', 'T', 'E', 'R', 'M'],
        UnixSignal::Interrupt => seq!['S', 'I', 'G', 'I', 'N', 'T'],
    }
}

impl UnixSignal {
    /// The tokio signal kind to listen for.
    pub fn to_signal_kind(self) -> (r: SignalKind)
        ensures
            signal_number(r) == unix_number(self),
    {
        match self {
            Self::Terminate => SignalKind::terminate(),
            Self::Interrupt => SignalKind::interrupt(),
        }
    }

    /// The signal's name: `SIGTERM` or `SIGINT`.
    pub fn to_string(&self) -> (r: String)
        ensures
            r@ == signal_name(*self),
    {
        let s = match self {
            Self::Terminate => "SIGTERM",
            Self::Interrupt => "SIGINT",
        };
        proof {
            reveal_strlit("SIGTERM");
            reveal_strlit("SIGINT");
        }
        assert(s@ =~= signal_name(*self));
        s.to_owned()
    }
}

} // verus!
