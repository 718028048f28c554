use vstd::prelude::*;
use vstd::utf8::encode_utf8;
use crate::registry::{command_lookup, strings_view, StoreError};
use crate::store::MemoryStore;
use crate::target::{DispatchError, DispatchTarget};
use crate::text::{concat, replace_placeholder, substituted};

verus! {

/// The name of the message channel that instances handling `scheme` listen on.
pub open spec fn channel_name_of(scheme: Seq<char>) -> Seq<char> {
    "bitSpatter\\Hermes\\"@ + scheme
}

/// Each argument template with its placeholders replaced by `full_path`.
pub open spec fn substituted_args(args: Seq<Seq<char>>, full_path: Seq<char>) -> Seq<Seq<char>> {
    args.map_values(|a: Seq<char>| substituted(a, full_path))
}

/// The executable and arguments launched for a stored command, or why none is.
pub open spec fn planned_launch(
    cmd: Result<Seq<Seq<char>>, StoreError>,
    full_path: Seq<char>,
) -> Result<(Seq<char>, Seq<Seq<char>>), DispatchError> {
    match cmd {
        Err(StoreError::NotFound) => Err(DispatchError::NotRegistered),
        Err(StoreError::Malformed) => Err(DispatchError::MalformedConfig),
        Ok(v) => if v.len() > 0 {
            Ok((v[0], substituted_args(v.skip(1), full_path)))
        } else {
            Err(DispatchError::MalformedConfig)
        },
    }
}

pub open spec fn loaded_model(loaded: Result<Vec<String>, StoreError>) -> Result<Seq<Seq<char>>, StoreError> {
    match loaded {
        Ok(v) => Ok(strings_view(v@)),
        Err(e) => Err(e),
    }
}

/// How an attempt to hand a URL to a running instance ended.
#[derive(Debug, Clone, Copy, PartialEq, Eq, Structural)]
pub enum ProbeOutcome {
    /// A listener took the message.
    Delivered,
    /// No listener exists on the channel.
    NoListener,
    /// A listener exists but sending failed.
    TransientError,
}

/// A message for the channel of a scheme.
pub struct ChannelMessage {
    pub channel: String,
    pub payload: Vec<u8>,
}

/// A process to launch, detached, when no instance took the URL.
#[derive(Debug, PartialEq, Eq)]
pub struct SpawnRequest {
    pub exe: String,
    pub args: Vec<String>,
}

impl SpawnRequest {
    pub open spec fn model(&self) -> (Seq<char>, Seq<Seq<char>>) {
        (self.exe@, strings_view(self.args@))
    }
}

/// What a dispatch came to.
#[derive(Debug, PartialEq, Eq)]
pub enum Resolution {
    /// A running instance received the payload.
    Delivered,
    /// A new process is to be launched.
    Launch(SpawnRequest),
}

/// The channel name for `scheme`.
pub fn channel_name(scheme: &str) -> (r: String)
    ensures
        r@ == channel_name_of(scheme@),
{
    concat("bitSpatter\\Hermes\\", scheme)
}

/// The message that hands `target` to a running instance: its full path,
/// on the channel of its scheme.
pub fn channel_message(target: &DispatchTarget) -> (r: ChannelMessage)
    ensures
        r.channel@ == channel_name_of(target.scheme@),
        r.payload@ == encode_utf8(target.full_path@),
{
    ChannelMessage {
        channel: channel_name(target.scheme.as_str()),
        payload: target.full_path.as_str().as_bytes_vec(),
    }
}

/// Whether the command must be launched after the channel was tried: any
/// outcome but a delivery leads to it.
pub fn needs_fallback(outcome: ProbeOutcome) -> (r: bool)
    ensures
        r == !(outcome is Delivered),
{
    !matches!(outcome, ProbeOutcome::Delivered)
}

/// The process to launch for the command loaded for a scheme: its first
/// element is the executable; in the others each `%1` becomes `full_path`.
pub fn fallback_command(
    full_path: &str,
    loaded: Result<Vec<String>, StoreError>,
) -> (r: Result<SpawnRequest, DispatchError>)
    ensures
        match r {
            Ok(req) => planned_launch(loaded_model(loaded), full_path@) == Ok::<
                (Seq<char>, Seq<Seq<char>>),
                DispatchError,
            >(req.model()),
            Err(e) => planned_launch(loaded_model(loaded), full_path@) == Err::<
                (Seq<char>, Seq<Seq<char>>),
                DispatchError,
            >(e),
        },
{
    let cmd = match loaded {
        Err(StoreError::NotFound) => {
            return Err(DispatchError::NotRegistered);
        },
        Err(StoreError::Malformed) => {
            return Err(DispatchError::MalformedConfig);
        },
        Ok(v) => v,
    };
    if cmd.len() == 0 {
        return Err(DispatchError::MalformedConfig);
    }
    let ghost templates = strings_view(cmd@).skip(1);
    let mut args: Vec<String> = Vec::new();
    let mut i: usize = 1;
    while i < cmd.len()
        invariant
            1 <= i <= cmd@.len(),
            templates == strings_view(cmd@).skip(1),
            args@.len() == i - 1,
            forall|j: int| 0 <= j < i - 1 ==> (#[trigger] args@[j])@ == substituted(templates[j], full_path@),
        decreases cmd@.len() - i,
    {
        args.push(replace_placeholder(cmd[i].as_str(), full_path));
        i = i + 1;
    }
    let exe = cmd[0].clone();
    let req = SpawnRequest { exe, args };
    assert(strings_view(req.args@) =~= substituted_args(templates, full_path@));
    Ok(req)
}

/// Resolves `target` after the channel was tried: nothing more where the
/// payload was delivered, else the command stored in `store` for the scheme.
pub fn resolve(
    store: &MemoryStore,
    target: &DispatchTarget,
    outcome: ProbeOutcome,
) -> (r: Result<Resolution, DispatchError>)
    ensures
        outcome is Delivered ==> r == Ok::<Resolution, DispatchError>(Resolution::Delivered),
        !(outcome is Delivered) ==> match r {
            Ok(Resolution::Launch(req)) => planned_launch(
                command_lookup(store@, target.scheme@),
                target.full_path@,
            ) == Ok::<(Seq<char>, Seq<Seq<char>>), DispatchError>(req.model()),
            Ok(Resolution::Delivered) => false,
            Err(e) => planned_launch(command_lookup(store@, target.scheme@), target.full_path@)
                == Err::<(Seq<char>, Seq<Seq<char>>), DispatchError>(e),
        },
{
    if !needs_fallback(outcome) {
        return Ok(Resolution::Delivered);
    }
    let loaded = store.get_command(target.scheme.as_str());
    match fallback_command(target.full_path.as_str(), loaded) {
        Ok(req) => Ok(Resolution::Launch(req)),
        Err(e) => Err(e),
    }
}

} // verus!
