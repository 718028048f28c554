use vstd::prelude::*;
use crate::text::concat;
use crate::scheme::{ascii_lowered, is_valid_scheme, parse_scheme, scheme_result, SchemeError};

verus! {

/// A stored value, as the store's model sees it.
pub enum ValueModel {
    Text(Seq<char>),
    List(Seq<Seq<char>>),
}

/// One stored value, as `(key path, value name, value)`.
pub type EntryModel = (Seq<char>, Seq<char>, ValueModel);

pub open spec fn strings_view(v: Seq<String>) -> Seq<Seq<char>> {
    v.map_values(|s: String| s@)
}

/// Where a protocol handler is declared to the system.
pub open spec fn protocol_key_of(p: Seq<char>) -> Seq<char> {
    "SOFTWARE\\Classes\\"@ + p
}

/// Where the command of a protocol is kept.
pub open spec fn configuration_key_of(p: Seq<char>) -> Seq<char> {
    "Software\\bitSpatter\\Hermes\\Protocols\\"@ + p
}

/// The icon of a handler: the quoted executable path, then `,0`.
pub open spec fn icon_spec_of(exe: Seq<char>) -> Seq<char> {
    "\""@ + exe + "\",0"@
}

/// The system's open command: the quoted executable, the extra flags if any,
/// then `open "%1"`.
pub open spec fn open_command_of(exe: Seq<char>, extra: Option<Seq<char>>) -> Seq<char> {
    match extra {
        Some(x) => "\""@ + exe + "\" "@ + x + " open \"%1\""@,
        None => "\""@ + exe + "\" open \"%1\""@,
    }
}

/// The values that register a protocol, in the order they are written.
pub open spec fn registration_entries(
    p: Seq<char>,
    cmd: Seq<Seq<char>>,
    exe: Seq<char>,
    extra: Option<Seq<char>>,
) -> Seq<EntryModel> {
    let pk = protocol_key_of(p);
    seq![
        (pk, Seq::empty(), ValueModel::Text("URL:"@ + p + " Protocol"@)),
        (pk, "URL Protocol"@, ValueModel::Text(Seq::empty())),
        (pk + "\\DefaultIcon"@, Seq::empty(), ValueModel::Text(icon_spec_of(exe))),
        (pk + "\\shell\\open\\command"@, Seq::empty(), ValueModel::Text(open_command_of(exe, extra))),
        (configuration_key_of(p), "command"@, ValueModel::List(cmd)),
    ]
}

/// A key path lies under `k`: it is `k` or one of its descendants.
pub open spec fn is_under(key: Seq<char>, k: Seq<char>) -> bool {
    key == k || (key.len() > k.len() && key.subrange(0, k.len() as int) == k && key[k.len() as int] == '\\')
}

/// `s` without the entries under `k`.
pub open spec fn without_tree(s: Seq<EntryModel>, k: Seq<char>) -> Seq<EntryModel>
    decreases s.len(),
{
    if s.len() == 0 {
        s
    } else if is_under(s.last().0, k) {
        without_tree(s.drop_last(), k)
    } else {
        without_tree(s.drop_last(), k).push(s.last())
    }
}

/// The value most recently written under `key` and `name`.
pub open spec fn lookup(s: Seq<EntryModel>, key: Seq<char>, name: Seq<char>) -> Option<ValueModel>
    decreases s.len(),
{
    if s.len() == 0 {
        None
    } else if s.last().0 == key && s.last().1 == name {
        Some(s.last().2)
    } else {
        lookup(s.drop_last(), key, name)
    }
}

/// The store after a protocol's two trees are removed.
pub open spec fn unregistered(s: Seq<EntryModel>, p: Seq<char>) -> Seq<EntryModel> {
    without_tree(without_tree(s, protocol_key_of(p)), configuration_key_of(p))
}

/// Why a stored command cannot be had.
#[derive(Debug, Clone, Copy, PartialEq, Eq, Structural)]
pub enum StoreError {
    /// Nothing is stored for the protocol.
    NotFound,
    /// What is stored is not a non-empty list of strings.
    Malformed,
}

/// What reading the command of a protocol yields.
pub open spec fn command_lookup(s: Seq<EntryModel>, p: Seq<char>) -> Result<Seq<Seq<char>>, StoreError> {
    match lookup(s, configuration_key_of(p), "command"@) {
        None => Err(StoreError::NotFound),
        Some(ValueModel::List(v)) => if v.len() > 0 {
            Ok(v)
        } else {
            Err(StoreError::Malformed)
        },
        Some(ValueModel::Text(_)) => Err(StoreError::Malformed),
    }
}

/// A value to store.
pub enum RegData {
    Text(String),
    List(Vec<String>),
}

impl RegData {
    pub open spec fn model(&self) -> ValueModel {
        match self {
            RegData::Text(s) => ValueModel::Text(s@),
            RegData::List(v) => ValueModel::List(strings_view(v@)),
        }
    }

    pub fn duplicate(&self) -> (r: RegData)
        ensures
            r.model() == self.model(),
    {
        match self {
            RegData::Text(s) => RegData::Text(s.clone()),
            RegData::List(v) => RegData::List(clone_strings(v)),
        }
    }
}

/// One value written under a key path and a value name.
pub struct RegWrite {
    pub key: String,
    pub name: String,
    pub data: RegData,
}

impl RegWrite {
    pub open spec fn model(&self) -> EntryModel {
        (self.key@, self.name@, self.data.model())
    }

    pub fn duplicate(&self) -> (r: RegWrite)
        ensures
            r.model() == self.model(),
    {
        RegWrite { key: self.key.clone(), name: self.name.clone(), data: self.data.duplicate() }
    }
}

pub open spec fn writes_model(v: Seq<RegWrite>) -> Seq<EntryModel> {
    v.map_values(|w: RegWrite| w.model())
}

/// A copy of a list of strings.
pub fn clone_strings(v: &Vec<String>) -> (r: Vec<String>)
    ensures
        strings_view(r@) == strings_view(v@),
{
    let mut r: Vec<String> = Vec::new();
    let mut i: usize = 0;
    while i < v.len()
        invariant
            i <= v@.len(),
            r@.len() == i,
            forall|j: int| 0 <= j < i ==> (#[trigger] r@[j])@ == v@[j]@,
        decreases v@.len() - i,
    {
        r.push(v[i].clone());
        i = i + 1;
    }
    assert(strings_view(r@) =~= strings_view(v@));
    r
}

/// The key path under which a protocol handler is declared.
pub fn get_protocol_registry_key(protocol: &str) -> (r: String)
    ensures
        r@ == protocol_key_of(protocol@),
{
    concat("SOFTWARE\\Classes\\", protocol)
}

/// The key path under which the command of a protocol is kept.
pub fn get_configuration_registry_key(protocol: &str) -> (r: String)
    ensures
        r@ == configuration_key_of(protocol@),
{
    concat("Software\\bitSpatter\\Hermes\\Protocols\\", protocol)
}

/// The extra flags of the open command when registering with debugging.
pub fn get_debug_args(register_with_debugging: bool) -> (r: Option<&'static str>)
    ensures
        r is Some <==> register_with_debugging,
        r is Some ==> r->Some_0@ == "--debug"@,
{
    if register_with_debugging {
        Some("--debug")
    } else {
        None
    }
}

pub open spec fn extra_view(extra_args: Option<&str>) -> Option<Seq<char>> {
    match extra_args {
        Some(x) => Some(x@),
        None => None,
    }
}

/// The values that register `scheme` as handled by `exe_path`, which runs
/// `commandline` when no instance is listening.
fn handler_writes(
    protocol: &str,
    commandline: &Vec<String>,
    exe_path: &str,
    extra_args: Option<&str>,
) -> (r: Vec<RegWrite>)
    ensures
        writes_model(r@) == registration_entries(
            protocol@,
            strings_view(commandline@),
            exe_path@,
            extra_view(extra_args),
        ),
{
    let key = get_protocol_registry_key(protocol);
    let mut label = concat("URL:", protocol);
    label.append(" Protocol");
    let mut icon = concat("\"", exe_path);
    icon.append("\",0");
    let mut open = concat("\"", exe_path);
    match extra_args {
        Some(x) => {
            open.append("\" ");
            open.append(x);
            open.append(" open \"%1\"");
        },
        None => {
            open.append("\" open \"%1\"");
        },
    }
    let icon_key = concat(key.as_str(), "\\DefaultIcon");
    let command_key = concat(key.as_str(), "\\shell\\open\\command");
    let mut r: Vec<RegWrite> = Vec::new();
    r.push(RegWrite { key: key.clone(), name: String::new(), data: RegData::Text(label) });
    r.push(RegWrite { key: key.clone(), name: String::from_str("URL Protocol"), data: RegData::Text(String::new()) });
    r.push(RegWrite { key: icon_key, name: String::new(), data: RegData::Text(icon) });
    r.push(RegWrite { key: command_key, name: String::new(), data: RegData::Text(open) });
    r.push(RegWrite {
        key: get_configuration_registry_key(protocol),
        name: String::from_str("command"),
        data: RegData::List(clone_strings(commandline)),
    });
    let ghost extra = match extra_args {
        Some(x) => Some(x@),
        None => None,
    };
    assert(writes_model(r@) =~= registration_entries(protocol@, strings_view(commandline@), exe_path@, extra));
    r
}

/// Validates `protocol` as a scheme, then gives the values that register its
/// lower-case form as handled by `exe_path`, which runs `commandline` when no
/// instance is listening. An invalid scheme gives its error and no values.
pub fn registration_plan(
    protocol: &str,
    commandline: &Vec<String>,
    exe_path: &str,
    extra_args: Option<&str>,
) -> (r: Result<Vec<RegWrite>, SchemeError>)
    ensures
        r is Ok <==> is_valid_scheme(protocol@),
        match r {
            Ok(v) => writes_model(v@) == registration_entries(
                ascii_lowered(protocol@),
                strings_view(commandline@),
                exe_path@,
                extra_view(extra_args),
            ),
            Err(e) => scheme_result(protocol@) == Err::<Seq<char>, SchemeError>(e),
        },
{
    let scheme = parse_scheme(protocol)?;
    Ok(handler_writes(scheme.as_str(), commandline, exe_path, extra_args))
}

/// The key paths whose trees unregistering `protocol` removes.
pub fn unregistration_plan(protocol: &str) -> (r: Vec<String>)
    ensures
        r@.len() == 2,
        r@[0]@ == protocol_key_of(protocol@),
        r@[1]@ == configuration_key_of(protocol@),
{
    let mut r: Vec<String> = Vec::new();
    r.push(get_protocol_registry_key(protocol));
    r.push(get_configuration_registry_key(protocol));
    r
}

} // verus!
