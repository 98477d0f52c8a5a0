use vstd::prelude::*;

verus! {

/// A connection that is either still in the clear or upgraded to a secure stream.
pub enum Transporter<P, S> {
    Plain(P),
    Secure(S),
}

/// An accessor was called on a transporter in the other state.
#[derive(Clone, Copy, Debug, PartialEq, Eq, Structural)]
pub enum TransportStateError {
    NotPlain,
    NotSecure,
}

impl<P, S> Transporter<P, S> {
    /// Whether the connection has been upgraded.
    pub fn is_secure(&self) -> (r: bool)
        ensures
            r == (self is Secure),
    {
        match self {
            Transporter::Plain(_) => false,
            Transporter::Secure(_) => true,
        }
    }

    /// The plain stream; an error once the connection has been upgraded.
    pub fn plain(&self) -> (r: Result<&P, TransportStateError>)
        ensures
            self is Plain ==> r == Ok::<&P, TransportStateError>(&self->Plain_0),
            self is Secure ==> r == Err::<&P, TransportStateError>(TransportStateError::NotPlain),
    {
        match self {
            Transporter::Plain(p) => Ok(p),
            Transporter::Secure(_) => Err(TransportStateError::NotPlain),
        }
    }

    /// The secure stream; an error while the connection is still in the clear.
    pub fn secure(&self) -> (r: Result<&S, TransportStateError>)
        ensures
            self is Secure ==> r == Ok::<&S, TransportStateError>(&self->Secure_0),
            self is Plain ==> r == Err::<&S, TransportStateError>(TransportStateError::NotSecure),
    {
        match self {
            Transporter::Plain(_) => Err(TransportStateError::NotSecure),
            Transporter::Secure(s) => Ok(s),
        }
    }

    /// The plain stream, to read from or write to; an error once upgraded.
    pub fn plain_mut(&mut self) -> (r: Result<&mut P, TransportStateError>)
        ensures
            *old(self) is Plain <==> r is Ok,
            *old(self) is Secure ==> r == Err::<&mut P, TransportStateError>(
                TransportStateError::NotPlain,
            ),
            *old(self) is Plain ==> *r->Ok_0 == (*old(self))->Plain_0,
            *old(self) is Plain ==> *final(self) == Transporter::<P, S>::Plain(*final(r->Ok_0)),
            *old(self) is Secure ==> *final(self) == *old(self),
    {
        match self {
            Transporter::Plain(p) => Ok(p),
            Transporter::Secure(_) => Err(TransportStateError::NotPlain),
        }
    }

    /// The secure stream, to read from or write to; an error while still in the clear.
    pub fn secure_mut(&mut self) -> (r: Result<&mut S, TransportStateError>)
        ensures
            *old(self) is Secure <==> r is Ok,
            *old(self) is Plain ==> r == Err::<&mut S, TransportStateError>(
                TransportStateError::NotSecure,
            ),
            *old(self) is Secure ==> *r->Ok_0 == (*old(self))->Secure_0,
            *old(self) is Secure ==> *final(self) == Transporter::<P, S>::Secure(*final(r->Ok_0)),
            *old(self) is Plain ==> *final(self) == *old(self),
    {
        match self {
            Transporter::Plain(_) => Err(TransportStateError::NotSecure),
            Transporter::Secure(s) => Ok(s),
        }
    }

    /// Gives up the plain stream so that it can be upgraded; a secure connection is
    /// handed back with an error, since an upgrade happens at most once.
    pub fn into_plain(self) -> (r: Result<P, (Self, TransportStateError)>)
        ensures
            self is Plain ==> r == Ok::<P, (Self, TransportStateError)>(self->Plain_0),
            self is Secure ==> r == Err::<P, (Self, TransportStateError)>(
                (self, TransportStateError::NotPlain),
            ),
    {
        match self {
            Transporter::Plain(p) => Ok(p),
            Transporter::Secure(s) => Err((Transporter::Secure(s), TransportStateError::NotPlain)),
        }
    }

    /// The connection after a successful upgrade of its plain stream.
    pub fn upgraded(stream: S) -> (r: Self)
        ensures
            r == Transporter::<P, S>::Secure(stream),
    {
        Transporter::Secure(stream)
    }
}

} // verus!
