use vstd::prelude::*;
use vstd::string::StrSliceExecFns;
use vstd::string::StringSliceAdditionalSpecFns;

verus! {

/// Whether a container's on-disk header demands a secret before it can be
/// unlocked. The container collaborator alone decides this, from the header;
/// it is handed in here as an event.
#[derive(Clone, Copy, Debug, PartialEq, Eq, Structural)]
pub enum ContainerKind {
    /// The container is unencrypted; no credential is ever needed.
    Plain,
    /// The container is encrypted; one credential unlocks it.
    Encrypted,
}

/// How many times the credential capability fires while opening a container
/// of the given kind: once when encrypted, never when plain.
pub open spec fn prompts_required(kind: ContainerKind) -> nat {
    match kind {
        ContainerKind::Encrypted => 1,
        ContainerKind::Plain => 0,
    }
}

/// Decide whether a secret must be acquired for this container.
pub fn credential_needed(kind: &ContainerKind) -> (need: bool)
    ensures
        need <==> (*kind is Encrypted),
        prompts_required(*kind) == if need {
            1nat
        } else {
            0nat
        },
{
    match kind {
        ContainerKind::Encrypted => true,
        ContainerKind::Plain => false,
    }
}

/// Records how often the credential capability was exercised during one open
/// attempt.
pub struct CredentialLog {
    invocations: u64,
}

impl CredentialLog {
    /// The number of recorded invocations.
    pub closed spec fn count(&self) -> nat {
        self.invocations as nat
    }

    /// A fresh log for one open attempt: nothing recorded yet.
    pub fn new() -> (log: Self)
        ensures
            log.count() == 0,
    {
        CredentialLog { invocations: 0 }
    }

    /// Note one invocation of the credential capability.
    pub fn record(&mut self)
        requires
            old(self).count() < u64::MAX,
        ensures
            final(self).count() == old(self).count() + 1,
    {
        self.invocations = self.invocations + 1;
    }

    /// How often the capability has fired so far.
    pub fn invocations(&self) -> (n: u64)
        ensures
            n as nat == self.count(),
    {
        self.invocations
    }
}

/// Law: credential acquisition is lazy. This models the collaborator's
/// unlock sequencing: it consults the header and exercises the credential
/// capability exactly when a secret is demanded — once for an encrypted
/// container, never for a plain one.
pub fn unlock_sequence(kind: &ContainerKind, log: &mut CredentialLog) -> (need: bool)
    requires
        old(log).count() == 0,
    ensures
        final(log).count() == prompts_required(*kind),
        need <==> (*kind is Encrypted),
{
    let need = credential_needed(kind);
    if need {
        log.record();
    }
    need
}

/// The secret as an opaque byte buffer: exactly the bytes of the line the
/// prompt read, with no encoding assumption added on the way to the unlock
/// routine.
pub fn credential_bytes(password: &str) -> (secret: Vec<u8>)
    ensures
        secret@ == password.spec_bytes(),
{
    password.as_bytes_vec()
}

} // verus!
