//! Network device and netdev configuration: the configuration structures,
//! their validity checks, and the command-string parser that fills them.

use vstd::prelude::*;

use crate::strutil::{is_signed_dec, parse_i32, signed_dec_value, str_eq};

verus! {

/// Longest accepted string field.
pub const MAX_STRING_LENGTH: usize = 255;

/// Length of a textual MAC address: six pairs of hex digits, colon-separated.
pub const MAC_ADDRESS_LENGTH: usize = 17;

/// Errors of configuration parsing and validation.
#[derive(Debug, Clone, PartialEq, Eq)]
pub enum ConfigError {
    /// A string field exceeds the given length limit; carries the field's
    /// name (or offending value) and the limit.
    StringLengthTooLong(String, usize),
    /// The MAC address is not six colon-separated pairs of hex digits.
    MacFormatError,
    /// A vhost type other than vhost-kernel was given.
    UnknownVhostType,
    /// A required field is absent; carries the field and the device kind.
    FieldIsMissing(String, String),
    /// A parameter item is malformed or its key is not accepted.
    InvalidParam(String),
    /// The same key was given twice.
    DuplicateParam(String),
    /// A value could not be read as the type its field requires.
    ValueParseError(String),
    /// No netdev has been configured at all.
    NoNetdevConfigured,
    /// The named netdev was not found among the configured ones.
    NetdevNotFound(String),
    /// A netdev with the same id has already been added.
    NetdevAlreadyAdded(String),
}

/// Validity check every configuration structure offers.
pub trait ConfigCheck: Sized {
    /// What it means for this configuration to be valid.
    spec fn check_ok(&self) -> bool;

    /// Check the configuration for validity.
    fn check(&self) -> (r: Result<(), ConfigError>)
        ensures
            r is Ok <==> self.check_ok(),
    ;
}

/// A hexadecimal digit, either case.
pub open spec fn is_hex_char(c: char) -> bool {
    ('0' <= c && c <= '9') || ('a' <= c && c <= 'f') || ('A' <= c && c <= 'F')
}

/// A textual MAC address: six pairs of hex digits separated by colons, 17
/// characters in all, so a colon at every position of remainder 2 modulo 3
/// and a hex digit everywhere else.
pub open spec fn is_valid_mac(s: Seq<char>) -> bool {
    s.len() == MAC_ADDRESS_LENGTH && forall|i: int|
        0 <= i < s.len() ==> (if i % 3 == 2 {
            s[i] == ':'
        } else {
            is_hex_char(s[i])
        })
}

/// Whether a string is a well-formed textual MAC address.
pub fn check_mac_address(mac: &str) -> (r: bool)
    ensures
        r == is_valid_mac(mac@),
{
    let n = mac.unicode_len();
    if n != MAC_ADDRESS_LENGTH {
        return false;
    }
    for i in 0..n
        invariant
            n == mac@.len(),
            n == MAC_ADDRESS_LENGTH,
            forall|j: int|
                0 <= j < i ==> (if j % 3 == 2 {
                    mac@[j] == ':'
                } else {
                    is_hex_char(mac@[j])
                }),
    {
        let c = mac.get_char(i);
        if i % 3 == 2 {
            if c != ':' {
                return false;
            }
        } else {
            if !((c >= '0' && c <= '9') || (c >= 'a' && c <= 'f') || (c >= 'A' && c <= 'F')) {
                return false;
            }
        }
    }
    true
}

/// Index of the first occurrence of `k`, or the length if `k` is absent.
pub open spec fn first_key(keys: Seq<Seq<char>>, k: Seq<char>) -> int
    decreases keys.len(),
{
    if keys.len() == 0 {
        0
    } else if keys[0] == k {
        0
    } else {
        1 + first_key(keys.subrange(1, keys.len() as int), k)
    }
}

/// What the first-occurrence index means.
pub proof fn lemma_first_key(keys: Seq<Seq<char>>, k: Seq<char>)
    ensures
        0 <= first_key(keys, k) <= keys.len(),
        first_key(keys, k) < keys.len() ==> keys[first_key(keys, k)] == k && (forall|j: int|
            0 <= j < first_key(keys, k) ==> keys[j] != k),
        first_key(keys, k) == keys.len() ==> forall|j: int| 0 <= j < keys.len() ==> keys[j] != k,
    decreases keys.len(),
{
    if keys.len() > 0 && keys[0] != k {
        let t = keys.subrange(1, keys.len() as int);
        lemma_first_key(t, k);
        let f = first_key(keys, k);
        if first_key(t, k) < t.len() {
            assert(keys[f] == t[f - 1]);
            assert forall|j: int| 0 <= j < f implies keys[j] != k by {
                if j >= 1 {
                    assert(keys[j] == t[j - 1]);
                }
            }
        } else {
            assert forall|j: int| 0 <= j < keys.len() implies keys[j] != k by {
                if j >= 1 {
                    assert(keys[j] == t[j - 1]);
                }
            }
        }
    }
}

/// Mathematical model of a command parser: its device name, the registered
/// keys in registration order, and the value each key has been given.
#[verifier::ext_equal]
pub ghost struct CmdParserView {
    pub name: Seq<char>,
    pub keys: Seq<Seq<char>>,
    pub vals: Seq<Option<Seq<char>>>,
}

impl CmdParserView {
    /// Whether `k` is a registered key.
    pub open spec fn registered(self, k: Seq<char>) -> bool {
        first_key(self.keys, k) < self.keys.len()
    }

    /// The value stored for a registered key, if one was parsed.
    pub open spec fn lookup(self, k: Seq<char>) -> Option<Seq<char>> {
        if self.registered(k) {
            self.vals[first_key(self.keys, k)]
        } else {
            None
        }
    }
}

/// One key=value pair applied to the parser state: fails on an unknown or
/// repeated key, otherwise stores the value.
pub open spec fn apply_kv(v: CmdParserView, k: Seq<char>, value: Seq<char>) -> Option<
    CmdParserView,
> {
    let i = first_key(v.keys, k);
    if i == v.keys.len() {
        None
    } else if v.vals[i] is Some {
        None
    } else {
        Some(CmdParserView { vals: v.vals.update(i, Some(value)), ..v })
    }
}

/// One comma-separated token applied to the parser state.  A token may not
/// begin or end with '='; a token without '=' is the value of the empty key,
/// accepted only in first position; a token with one '=' is a key=value
/// pair; more than one '=' is malformed.
pub open spec fn apply_token(v: CmdParserView, tok: Seq<char>, cnt: int) -> Option<CmdParserView> {
    if tok.len() > 0 && (tok[0] == '=' || tok[tok.len() - 1] == '=') {
        None
    } else {
        let parts = crate::strutil::spec_split(tok, '=');
        if parts.len() == 1 {
            if cnt == 0 {
                apply_kv(v, ""@, parts[0])
            } else {
                None
            }
        } else if parts.len() == 2 {
            apply_kv(v, parts[0], parts[1])
        } else {
            None
        }
    }
}

/// A run of tokens applied in order, numbered from `cnt`; the first failure
/// fails the whole run.
pub open spec fn apply_tokens(v: CmdParserView, toks: Seq<Seq<char>>, cnt: int) -> Option<
    CmdParserView,
>
    decreases toks.len(),
{
    if toks.len() == 0 {
        Some(v)
    } else {
        match apply_token(v, toks[0], cnt) {
            Some(v2) => apply_tokens(v2, toks.subrange(1, toks.len() as int), cnt + 1),
            None => None,
        }
    }
}

/// Command-string parser: a set of registered keys and, after parsing, the
/// value each key was given.
#[derive(Debug, Clone)]
pub struct CmdParser {
    /// Name of the device kind this command string configures.
    pub name: String,
    /// Registered keys, in registration order.
    pub keys: Vec<String>,
    /// Parsed value of each key, aligned with `keys`.
    pub vals: Vec<Option<String>>,
}

impl View for CmdParser {
    type V = CmdParserView;

    open spec fn view(&self) -> CmdParserView {
        CmdParserView { name: self.name@, keys: self.keys.deep_view(), vals: self.vals.deep_view() }
    }
}

impl CmdParser {
    /// One stored value per registered key.
    pub open spec fn wf(&self) -> bool {
        self.keys@.len() == self.vals@.len()
    }

    /// A parser for the given device kind with no keys registered yet.
    pub fn new(name: &str) -> (p: CmdParser)
        ensures
            p.wf(),
            p@.name == name@,
            p@.keys.len() == 0,
            p@.vals.len() == 0,
    {
        CmdParser { name: String::from_str(name), keys: Vec::new(), vals: Vec::new() }
    }

    /// Register one key.
    pub fn push(&mut self, key: &str)
        requires
            old(self).wf(),
        ensures
            final(self).wf(),
            final(self)@.name == old(self)@.name,
            final(self)@.keys == old(self)@.keys.push(key@),
            final(self)@.vals == old(self)@.vals.push(None::<Seq<char>>),
    {
        self.keys.push(String::from_str(key));
        self.vals.push(None);
        proof {
            assert(final(self)@.keys =~= old(self)@.keys.push(key@));
            assert(final(self)@.vals =~= old(self)@.vals.push(None::<Seq<char>>));
        }
    }

    /// Position of a key among the registered ones.
    fn find_key(&self, key: &str) -> (r: Option<usize>)
        requires
            self.wf(),
        ensures
            r matches Some(i) ==> i == first_key(self@.keys, key@) && i < self@.keys.len(),
            r is None ==> first_key(self@.keys, key@) == self@.keys.len(),
    {
        proof {
            lemma_first_key(self@.keys, key@);
        }
        let n = self.keys.len();
        for i in 0..n
            invariant
                self.wf(),
                n == self@.keys.len(),
                forall|j: int| 0 <= j < i ==> self@.keys[j] != key@,
        {
            if str_eq(self.keys[i].as_str(), key) {
                proof {
                    lemma_first_key(self@.keys, key@);
                    assert(self@.keys[i as int] == key@);
                    let fk = first_key(self@.keys, key@);
                    if fk < i as int {
                        assert(self@.keys[fk] != key@);
                    }
                    if fk > i as int {
                        assert(self@.keys[i as int] != key@);
                    }
                }
                return Some(i);
            }
            proof {
                assert(self@.keys[i as int] != key@);
            }
        }
        None
    }

    /// Store one key=value pair, rejecting unknown and repeated keys.
    fn set_value(&mut self, key: &str, value: &String) -> (r: Result<(), ConfigError>)
        requires
            old(self).wf(),
        ensures
            final(self).wf(),
            final(self)@.name == old(self)@.name,
            final(self)@.keys == old(self)@.keys,
            r is Ok <==> apply_kv(old(self)@, key@, value@) is Some,
            r is Ok ==> Some(final(self)@) == apply_kv(old(self)@, key@, value@),
            r is Err ==> final(self)@ == old(self)@,
    {
        match self.find_key(key) {
            None => Err(ConfigError::InvalidParam(String::from_str(key))),
            Some(i) => {
                if self.vals[i].is_some() {
                    Err(ConfigError::DuplicateParam(String::from_str(key)))
                } else {
                    self.vals.set(i, Some(value.clone()));
                    proof {
                        assert(final(self)@.vals =~= old(self)@.vals.update(
                            i as int,
                            Some(value@),
                        ));
                        assert(Some(final(self)@) =~= apply_kv(old(self)@, key@, value@));
                    }
                    Ok(())
                }
            },
        }
    }

    /// Parse a comma-separated command string into the registered keys.
    /// Success and the resulting state are exactly those of applying the
    /// comma-separated tokens in order; a failed parse may leave the values
    /// of the tokens before the offending one stored.
    pub fn parse(&mut self, cmd: &str) -> (r: Result<(), ConfigError>)
        requires
            old(self).wf(),
        ensures
            final(self).wf(),
            final(self)@.name == old(self)@.name,
            final(self)@.keys == old(self)@.keys,
            r is Ok <==> apply_tokens(old(self)@, crate::strutil::spec_split(cmd@, ','), 0)
                is Some,
            r is Ok ==> Some(final(self)@) == apply_tokens(
                old(self)@,
                crate::strutil::spec_split(cmd@, ','),
                0,
            ),
    {
        let tokens = crate::strutil::split_str(cmd, ',');
        let tn = tokens.len();
        let ghost all = crate::strutil::spec_split(cmd@, ',');
        proof {
            assert(all.subrange(0, tn as int) =~= all);
        }
        for t in 0..tn
            invariant
                self.wf(),
                self@.name == old(self)@.name,
                self@.keys == old(self)@.keys,
                tn == tokens@.len(),
                all == crate::strutil::spec_split(cmd@, ','),
                crate::strutil::split_views(tokens@) =~= all,
                apply_tokens(old(self)@, all, 0) == apply_tokens(
                    self@,
                    all.subrange(t as int, tn as int),
                    t as int,
                ),
        {
            let tok = &tokens[t];
            let ghost pre = self@;
            let ghost rem = all.subrange(t as int, tn as int);
            proof {
                assert(rem[0] == tok@);
                assert(rem.subrange(1, rem.len() as int) =~= all.subrange(
                    t + 1,
                    tn as int,
                ));
            }
            let tok_n = tok.as_str().unicode_len();
            if tok_n > 0 && (tok.as_str().get_char(0) == '=' || tok.as_str().get_char(tok_n - 1)
                == '=') {
                return Err(ConfigError::InvalidParam(tok.clone()));
            }
            let parts = crate::strutil::split_str(tok.as_str(), '=');
            proof {
                assert(crate::strutil::split_views(parts@)
                    == crate::strutil::spec_split(tok@, '='));
                assert(parts@.len() == crate::strutil::spec_split(tok@, '=').len());
            }
            if parts.len() == 1 {
                if t == 0 {
                    match self.set_value("", &parts[0]) {
                        Ok(()) => {},
                        Err(e) => {
                            return Err(e);
                        },
                    }
                } else {
                    return Err(ConfigError::InvalidParam(tok.clone()));
                }
            } else if parts.len() == 2 {
                match self.set_value(parts[0].as_str(), &parts[1]) {
                    Ok(()) => {},
                    Err(e) => {
                        return Err(e);
                    },
                }
            } else {
                return Err(ConfigError::InvalidParam(tok.clone()));
            }
            proof {
                assert(Some(self@) == apply_token(pre, tok@, t as int));
            }
        }
        proof {
            assert(all.subrange(tn as int, tn as int) =~= Seq::<Seq<char>>::empty());
        }
        Ok(())
    }

    /// The stored value of a registered key; an unregistered key is refused.
    pub fn get_str(&self, key: &str) -> (r: Result<Option<String>, ConfigError>)
        requires
            self.wf(),
        ensures
            r is Ok <==> self@.registered(key@),
            r matches Ok(v) ==> v.deep_view() == self@.lookup(key@),
            r matches Err(e) ==> e matches ConfigError::InvalidParam(k) && k@ == key@,
    {
        match self.find_key(key) {
            None => Err(ConfigError::InvalidParam(String::from_str(key))),
            Some(i) => match &self.vals[i] {
                Some(s) => Ok(Some(s.clone())),
                None => Ok(None),
            },
        }
    }

    /// The stored value of a registered key read as a signed 32-bit decimal
    /// integer; an unregistered key or an unreadable value is refused.
    pub fn get_i32(&self, key: &str) -> (r: Result<Option<i32>, ConfigError>)
        requires
            self.wf(),
        ensures
            r is Ok <==> self@.registered(key@) && (self@.lookup(key@) matches Some(s)
                ==> is_i32_value(s)),
            r matches Ok(Some(v)) ==> self@.lookup(key@) matches Some(s) && v == signed_dec_value(
                s,
            ),
            r matches Ok(None) ==> self@.lookup(key@) is None,
            r matches Err(e) ==> (!self@.registered(key@) ==> (e matches
            ConfigError::InvalidParam(k) && k@ == key@)),
            r matches Err(e) ==> (self@.registered(key@) ==> (self@.lookup(key@) matches Some(s)
                && e matches ConfigError::ValueParseError(v) && !is_i32_value(s) && v@ == s)),
    {
        match self.find_key(key) {
            None => Err(ConfigError::InvalidParam(String::from_str(key))),
            Some(i) => match &self.vals[i] {
                None => Ok(None),
                Some(s) => match parse_i32(s.as_str()) {
                    Some(v) => Ok(Some(v)),
                    None => Err(ConfigError::ValueParseError(s.clone())),
                },
            },
        }
    }

    /// The stored value of a registered key read as an extended boolean
    /// (`on`/`true`, `off`/`false`); an unregistered key or any other value
    /// is refused.
    pub fn get_exbool(&self, key: &str) -> (r: Result<Option<bool>, ConfigError>)
        requires
            self.wf(),
        ensures
            r is Ok <==> self@.registered(key@) && (self@.lookup(key@) matches Some(s)
                ==> is_exbool(s)),
            r matches Ok(Some(v)) ==> self@.lookup(key@) matches Some(s) && v == exbool_value(s),
            r matches Ok(None) ==> self@.lookup(key@) is None,
            r matches Err(e) ==> (!self@.registered(key@) ==> (e matches
            ConfigError::InvalidParam(k) && k@ == key@)),
            r matches Err(e) ==> (self@.registered(key@) ==> (self@.lookup(key@) matches Some(s)
                && e matches ConfigError::ValueParseError(v) && !is_exbool(s) && v@ == s)),
    {
        match self.find_key(key) {
            None => Err(ConfigError::InvalidParam(String::from_str(key))),
            Some(i) => match &self.vals[i] {
                None => Ok(None),
                Some(s) => {
                    if str_eq(s.as_str(), "true") || str_eq(s.as_str(), "on") {
                        Ok(Some(true))
                    } else if str_eq(s.as_str(), "false") || str_eq(s.as_str(), "off") {
                        Ok(Some(false))
                    } else {
                        Err(ConfigError::ValueParseError(s.clone()))
                    }
                },
            },
        }
    }
}

/// A string readable as a signed 32-bit decimal integer.
pub open spec fn is_i32_value(s: Seq<char>) -> bool {
    is_signed_dec(s) && i32::MIN <= signed_dec_value(s) <= i32::MAX
}

/// A string an extended boolean accepts.
pub open spec fn is_exbool(s: Seq<char>) -> bool {
    s == "true"@ || s == "on"@ || s == "false"@ || s == "off"@
}

/// The boolean an extended-boolean string denotes.
pub open spec fn exbool_value(s: Seq<char>) -> bool {
    s == "true"@ || s == "on"@
}

/// Mathematical model of a netdev (host side) configuration.
#[verifier::ext_equal]
pub ghost struct NetDevcfgView {
    pub id: Seq<char>,
    pub mac: Option<Seq<char>>,
    pub tap_fd: Option<i32>,
    pub vhost_type: Option<Seq<char>>,
    pub vhost_fd: Option<i32>,
}

/// Host-side network backend configuration.
#[derive(Debug, Clone)]
pub struct NetDevcfg {
    pub id: String,
    pub mac: Option<String>,
    pub tap_fd: Option<i32>,
    pub vhost_type: Option<String>,
    pub vhost_fd: Option<i32>,
}

impl View for NetDevcfg {
    type V = NetDevcfgView;

    open spec fn view(&self) -> NetDevcfgView {
        NetDevcfgView {
            id: self.id@,
            mac: self.mac.deep_view(),
            tap_fd: self.tap_fd,
            vhost_type: self.vhost_type.deep_view(),
            vhost_fd: self.vhost_fd,
        }
    }
}

impl DeepView for NetDevcfg {
    type V = NetDevcfgView;

    open spec fn deep_view(&self) -> NetDevcfgView {
        self.view()
    }
}

impl Default for NetDevcfg {
    /// An empty id and nothing else configured.
    fn default() -> (d: NetDevcfg)
        ensures
            d@.id.len() == 0,
            d@.mac is None,
            d@.tap_fd is None,
            d@.vhost_type is None,
            d@.vhost_fd is None,
    {
        NetDevcfg { id: String::new(), mac: None, tap_fd: None, vhost_type: None, vhost_fd: None }
    }
}

/// Mathematical model of a guest-facing network interface configuration.
#[verifier::ext_equal]
pub ghost struct NetworkInterfaceConfigView {
    pub id: Seq<char>,
    pub host_dev_name: Seq<char>,
    pub mac: Option<Seq<char>>,
    pub tap_fd: Option<i32>,
    pub vhost_type: Option<Seq<char>>,
    pub vhost_fd: Option<i32>,
    pub iothread: Option<Seq<char>>,
}

/// Config struct for a guest-facing network interface: which host backend it
/// uses, its MAC address, and its optional vhost and iothread settings.
#[derive(Debug, Clone)]
pub struct NetworkInterfaceConfig {
    pub id: String,
    pub host_dev_name: String,
    pub mac: Option<String>,
    pub tap_fd: Option<i32>,
    pub vhost_type: Option<String>,
    pub vhost_fd: Option<i32>,
    pub iothread: Option<String>,
}

impl View for NetworkInterfaceConfig {
    type V = NetworkInterfaceConfigView;

    open spec fn view(&self) -> NetworkInterfaceConfigView {
        NetworkInterfaceConfigView {
            id: self.id@,
            host_dev_name: self.host_dev_name@,
            mac: self.mac.deep_view(),
            tap_fd: self.tap_fd,
            vhost_type: self.vhost_type.deep_view(),
            vhost_fd: self.vhost_fd,
            iothread: self.iothread.deep_view(),
        }
    }
}

impl NetworkInterfaceConfig {
    /// Set the MAC address, leaving every other field as it was.
    pub fn set_mac(&mut self, mac_addr: String)
        ensures
            final(self)@.mac == Some(mac_addr@),
            final(self)@.id == old(self)@.id,
            final(self)@.host_dev_name == old(self)@.host_dev_name,
            final(self)@.tap_fd == old(self)@.tap_fd,
            final(self)@.vhost_type == old(self)@.vhost_type,
            final(self)@.vhost_fd == old(self)@.vhost_fd,
            final(self)@.iothread == old(self)@.iothread,
    {
        self.mac = Some(mac_addr);
    }
}

impl Default for NetworkInterfaceConfig {
    /// Empty ids and nothing else configured.
    fn default() -> (d: NetworkInterfaceConfig)
        ensures
            d@.id.len() == 0,
            d@.host_dev_name.len() == 0,
            d@.mac is None,
            d@.tap_fd is None,
            d@.vhost_type is None,
            d@.vhost_fd is None,
            d@.iothread is None,
    {
        NetworkInterfaceConfig {
            id: String::new(),
            host_dev_name: String::new(),
            mac: None,
            tap_fd: None,
            vhost_type: None,
            vhost_fd: None,
            iothread: None,
        }
    }
}

/// Validity of a network interface configuration: short enough names, a
/// well-formed MAC address if one is given, and no vhost type other than
/// vhost-kernel.
pub open spec fn iface_check_ok(c: NetworkInterfaceConfigView) -> bool {
    &&& c.id.len() <= MAX_STRING_LENGTH
    &&& c.host_dev_name.len() <= MAX_STRING_LENGTH
    &&& (c.mac matches Some(m) ==> is_valid_mac(m))
    &&& (c.vhost_type matches Some(t) ==> t == "vhost-kernel"@)
    &&& (c.iothread matches Some(t) ==> t.len() <= MAX_STRING_LENGTH)
}

impl ConfigCheck for NetworkInterfaceConfig {
    open spec fn check_ok(&self) -> bool {
        iface_check_ok(self@)
    }

    /// Check the interface configuration, reporting the first rule it
    /// breaks, in the order: id length, host device name length, MAC
    /// address shape, vhost type, iothread name length.
    fn check(&self) -> (r: Result<(), ConfigError>)
        ensures
            self@.id.len() > MAX_STRING_LENGTH ==> (r matches Err(e) && e matches
                ConfigError::StringLengthTooLong(s, n) && s@ == "id"@ && n == MAX_STRING_LENGTH),
            self@.id.len() <= MAX_STRING_LENGTH && self@.host_dev_name.len() > MAX_STRING_LENGTH
                ==> (r matches Err(e) && e matches ConfigError::StringLengthTooLong(s, n) && s@
                == self@.host_dev_name && n == MAX_STRING_LENGTH),
            self@.id.len() <= MAX_STRING_LENGTH && self@.host_dev_name.len() <= MAX_STRING_LENGTH
                && (self@.mac matches Some(m) && !is_valid_mac(m)) ==> (r matches Err(e)
                && e matches ConfigError::MacFormatError),
            self@.id.len() <= MAX_STRING_LENGTH && self@.host_dev_name.len() <= MAX_STRING_LENGTH
                && (self@.mac matches Some(m) ==> is_valid_mac(m)) && (self@.vhost_type matches
            Some(t) && t != "vhost-kernel"@) ==> (r matches Err(e) && e matches
            ConfigError::UnknownVhostType),
            self@.id.len() <= MAX_STRING_LENGTH && self@.host_dev_name.len() <= MAX_STRING_LENGTH
                && (self@.mac matches Some(m) ==> is_valid_mac(m)) && (self@.vhost_type matches
            Some(t) ==> t == "vhost-kernel"@) && (self@.iothread matches Some(t) && t.len()
                > MAX_STRING_LENGTH) ==> (r matches Err(e) && e matches
            ConfigError::StringLengthTooLong(s, n) && s@ == "iothread name"@ && n
                == MAX_STRING_LENGTH),
    {
        if self.id.as_str().unicode_len() > MAX_STRING_LENGTH {
            return Err(
                ConfigError::StringLengthTooLong(String::from_str("id"), MAX_STRING_LENGTH),
            );
        }
        if self.host_dev_name.as_str().unicode_len() > MAX_STRING_LENGTH {
            return Err(
                ConfigError::StringLengthTooLong(self.host_dev_name.clone(), MAX_STRING_LENGTH),
            );
        }
        match &self.mac {
            Some(m) => {
                if !check_mac_address(m.as_str()) {
                    return Err(ConfigError::MacFormatError);
                }
            },
            None => {},
        }
        match &self.vhost_type {
            Some(t) => {
                if !str_eq(t.as_str(), "vhost-kernel") {
                    return Err(ConfigError::UnknownVhostType);
                }
            },
            None => {},
        }
        match &self.iothread {
            Some(t) => {
                if t.as_str().unicode_len() > MAX_STRING_LENGTH {
                    return Err(
                        ConfigError::StringLengthTooLong(
                            String::from_str("iothread name"),
                            MAX_STRING_LENGTH,
                        ),
                    );
                }
            },
            None => {},
        }
        Ok(())
    }
}

/// Clone an optional string.
fn clone_opt_string(o: &Option<String>) -> (r: Option<String>)
    ensures
        r.deep_view() == o.deep_view(),
{
    match o {
        Some(s) => Some(s.clone()),
        None => None,
    }
}

/// The keys a netdev command string accepts, in registration order.
pub open spec fn netdev_parser_keys() -> Seq<Seq<char>> {
    seq![""@, "id"@, "mac"@, "fds"@, "vhost"@, "vhostfds"@]
}

/// A fresh netdev command parser.
pub open spec fn netdev_parser_init() -> CmdParserView {
    CmdParserView {
        name: "netdev"@,
        keys: netdev_parser_keys(),
        vals: Seq::new(6, |i: int| None),
    }
}

/// The keys a net device command string accepts, in registration order.
pub open spec fn net_parser_keys() -> Seq<Seq<char>> {
    seq![""@, "id"@, "netdev"@, "mac"@, "fds"@, "vhost"@, "vhostfds"@, "iothread"@]
}

/// A fresh net device command parser.
pub open spec fn net_parser_init() -> CmdParserView {
    CmdParserView {
        name: "virtio-net-device"@,
        keys: net_parser_keys(),
        vals: Seq::new(8, |i: int| None),
    }
}

/// The first-occurrence index is the witnessed one.
proof fn lemma_first_key_at(keys: Seq<Seq<char>>, k: Seq<char>, i: int)
    requires
        0 <= i < keys.len(),
        keys[i] == k,
        forall|j: int| 0 <= j < i ==> keys[j] != k,
    ensures
        first_key(keys, k) == i,
{
    lemma_first_key(keys, k);
    let fk = first_key(keys, k);
    if fk < i {
        assert(keys[fk] != k);
    }
    if fk > i {
        if fk < keys.len() {
            assert(keys[i] != k);
        } else {
            assert(keys[i] != k);
        }
    }
}

/// The accepted keys are pairwise distinct.
proof fn lemma_keys_distinct()
    ensures
        ""@ != "id"@ && ""@ != "netdev"@ && ""@ != "mac"@ && ""@ != "fds"@ && ""@ != "vhost"@
            && ""@ != "vhostfds"@ && ""@ != "iothread"@,
        "id"@ != "netdev"@ && "id"@ != "mac"@ && "id"@ != "fds"@ && "id"@ != "vhost"@ && "id"@
            != "vhostfds"@ && "id"@ != "iothread"@,
        "netdev"@ != "mac"@ && "netdev"@ != "fds"@ && "netdev"@ != "vhost"@ && "netdev"@
            != "vhostfds"@ && "netdev"@ != "iothread"@,
        "mac"@ != "fds"@ && "mac"@ != "vhost"@ && "mac"@ != "vhostfds"@ && "mac"@ != "iothread"@,
        "fds"@ != "vhost"@ && "fds"@ != "vhostfds"@ && "fds"@ != "iothread"@,
        "vhost"@ != "vhostfds"@ && "vhost"@ != "iothread"@,
        "vhostfds"@ != "iothread"@,
{
    reveal_strlit("");
    reveal_strlit("id");
    reveal_strlit("netdev");
    reveal_strlit("mac");
    reveal_strlit("fds");
    reveal_strlit("vhost");
    reveal_strlit("vhostfds");
    reveal_strlit("iothread");
    assert(""@.len() == 0 && "id"@.len() == 2 && "netdev"@.len() == 6 && "mac"@.len() == 3
        && "fds"@.len() == 3 && "vhost"@.len() == 5 && "vhostfds"@.len() == 8
        && "iothread"@.len() == 8);
    assert("mac"@[0] == 'm' && "fds"@[0] == 'f' && "vhostfds"@[0] == 'v' && "iothread"@[0] == 'i');
}

/// Where each accepted key sits in the net device parser.
proof fn lemma_net_parser_registered()
    ensures
        first_key(net_parser_keys(), ""@) == 0,
        first_key(net_parser_keys(), "id"@) == 1,
        first_key(net_parser_keys(), "netdev"@) == 2,
        first_key(net_parser_keys(), "mac"@) == 3,
        first_key(net_parser_keys(), "fds"@) == 4,
        first_key(net_parser_keys(), "vhost"@) == 5,
        first_key(net_parser_keys(), "vhostfds"@) == 6,
        first_key(net_parser_keys(), "iothread"@) == 7,
{
    lemma_keys_distinct();
    let ks = net_parser_keys();
    lemma_first_key_at(ks, ""@, 0);
    lemma_first_key_at(ks, "id"@, 1);
    lemma_first_key_at(ks, "netdev"@, 2);
    lemma_first_key_at(ks, "mac"@, 3);
    lemma_first_key_at(ks, "fds"@, 4);
    lemma_first_key_at(ks, "vhost"@, 5);
    lemma_first_key_at(ks, "vhostfds"@, 6);
    lemma_first_key_at(ks, "iothread"@, 7);
}

/// A parser that registers the five keys a netdev configuration is built
/// from.
pub open spec fn netdev_keys_registered(p: CmdParserView) -> bool {
    &&& p.registered("id"@)
    &&& p.registered("vhost"@)
    &&& p.registered("mac"@)
    &&& p.registered("fds"@)
    &&& p.registered("vhostfds"@)
}

/// A parser state from which a netdev configuration can be built: an id was
/// given, and the vhost flag and the file descriptors, where given, are
/// readable as their types.
pub open spec fn netdev_ok(p: CmdParserView) -> bool {
    &&& netdev_keys_registered(p)
    &&& p.lookup("id"@) is Some
    &&& (p.lookup("vhost"@) matches Some(s) ==> is_exbool(s))
    &&& (p.lookup("fds"@) matches Some(s) ==> is_i32_value(s))
    &&& (p.lookup("vhostfds"@) matches Some(s) ==> is_i32_value(s))
}

/// The netdev configuration a parser state denotes.
pub open spec fn netdev_result(p: CmdParserView) -> NetDevcfgView {
    NetDevcfgView {
        id: p.lookup("id"@).unwrap(),
        mac: p.lookup("mac"@),
        tap_fd: match p.lookup("fds"@) {
            Some(s) => Some(signed_dec_value(s) as i32),
            None => None,
        },
        vhost_type: match p.lookup("vhost"@) {
            Some(s) => if exbool_value(s) {
                Some("vhost-kernel"@)
            } else {
                None
            },
            None => None,
        },
        vhost_fd: match p.lookup("vhostfds"@) {
            Some(s) => Some(signed_dec_value(s) as i32),
            None => None,
        },
    }
}

/// Build a netdev configuration from a parsed command string: the id is
/// required; a true vhost flag selects the vhost-kernel backend; the MAC
/// address and the tap and vhost file descriptors are taken as given.
/// Each failure names its cause: a missing id, exactly when the parser holds
/// none; an unregistered key; or the first unreadable value, carried in the
/// error, in the order vhost flag, tap fd, vhost fd.
pub fn parse_netdev(cmd_parser: CmdParser) -> (r: Result<NetDevcfg, ConfigError>)
    requires
        cmd_parser.wf(),
    ensures
        r is Ok <==> netdev_ok(cmd_parser@),
        r matches Ok(cfg) ==> cfg@ == netdev_result(cmd_parser@),
        cmd_parser@.registered("id"@) && cmd_parser@.lookup("id"@) is None ==> (r matches Err(e)
            && e matches ConfigError::FieldIsMissing(f, k) && f@ == "id"@ && k@ == "net"@),
        r matches Err(e) ==> (e matches ConfigError::FieldIsMissing(f, k)
            ==> cmd_parser@.registered("id"@) && cmd_parser@.lookup("id"@) is None),
        netdev_keys_registered(cmd_parser@) && cmd_parser@.lookup("id"@) is Some && (cmd_parser@
            .lookup("vhost"@) matches Some(s) && !is_exbool(s)) ==> (r matches Err(e) && e matches
            ConfigError::ValueParseError(v) && Some(v@) == cmd_parser@.lookup("vhost"@)),
        netdev_keys_registered(cmd_parser@) && cmd_parser@.lookup("id"@) is Some && (cmd_parser@
            .lookup("vhost"@) matches Some(s) ==> is_exbool(s)) && (cmd_parser@.lookup("fds"@)
            matches Some(s) && !is_i32_value(s)) ==> (r matches Err(e) && e matches
            ConfigError::ValueParseError(v) && Some(v@) == cmd_parser@.lookup("fds"@)),
        netdev_keys_registered(cmd_parser@) && cmd_parser@.lookup("id"@) is Some && (cmd_parser@
            .lookup("vhost"@) matches Some(s) ==> is_exbool(s)) && (cmd_parser@.lookup("fds"@)
            matches Some(s) ==> is_i32_value(s)) && (cmd_parser@.lookup("vhostfds"@) matches Some(
            s,
        ) && !is_i32_value(s)) ==> (r matches Err(e) && e matches ConfigError::ValueParseError(v)
            && Some(v@) == cmd_parser@.lookup("vhostfds"@)),
        r matches Err(e) ==> (e matches ConfigError::InvalidParam(k)
            ==> !netdev_keys_registered(cmd_parser@)),
{
    let mut net = NetDevcfg::default();
    match cmd_parser.get_str("id") {
        Ok(Some(net_id)) => {
            net.id = net_id;
        },
        Ok(None) => {
            return Err(
                ConfigError::FieldIsMissing(String::from_str("id"), String::from_str("net")),
            );
        },
        Err(e) => {
            return Err(e);
        },
    }
    match cmd_parser.get_exbool("vhost") {
        Ok(Some(true)) => {
            net.vhost_type = Some(String::from_str("vhost-kernel"));
        },
        Ok(_) => {},
        Err(e) => {
            return Err(e);
        },
    }
    match cmd_parser.get_str("mac") {
        Ok(m) => {
            net.mac = m;
        },
        Err(e) => {
            return Err(e);
        },
    }
    match cmd_parser.get_i32("fds") {
        Ok(v) => {
            net.tap_fd = v;
        },
        Err(e) => {
            return Err(e);
        },
    }
    match cmd_parser.get_i32("vhostfds") {
        Ok(v) => {
            net.vhost_fd = v;
        },
        Err(e) => {
            return Err(e);
        },
    }
    proof {
        assert(net@ =~= netdev_result(cmd_parser@));
    }
    Ok(net)
}

/// The ids of a run of netdev configurations.
pub open spec fn netdev_ids(devs: Seq<NetDevcfgView>) -> Seq<Seq<char>> {
    devs.map_values(|d: NetDevcfgView| d.id)
}

/// Position of the netdev with the given id.
fn find_netdev(devs: &Vec<NetDevcfg>, id: &str) -> (r: Option<usize>)
    ensures
        r matches Some(i) ==> i as int == first_key(netdev_ids(devs.deep_view()), id@) && i
            < devs@.len(),
        r is None ==> first_key(netdev_ids(devs.deep_view()), id@) == devs@.len(),
{
    proof {
        lemma_first_key(netdev_ids(devs.deep_view()), id@);
    }
    let n = devs.len();
    for i in 0..n
        invariant
            n == devs@.len(),
            forall|j: int| 0 <= j < i ==> netdev_ids(devs.deep_view())[j] != id@,
    {
        if str_eq(devs[i].id.as_str(), id) {
            proof {
                lemma_first_key(netdev_ids(devs.deep_view()), id@);
                assert(netdev_ids(devs.deep_view())[i as int] == id@);
                let fk = first_key(netdev_ids(devs.deep_view()), id@);
                if fk < i as int {
                    assert(netdev_ids(devs.deep_view())[fk] != id@);
                }
                if fk > i as int {
                    assert(netdev_ids(devs.deep_view())[i as int] != id@);
                }
            }
            return Some(i);
        }
        proof {
            assert(netdev_ids(devs.deep_view())[i as int] != id@);
        }
    }
    None
}

/// The machine configuration this slice of the system reads and extends:
/// the set of configured netdevs, keyed by their ids.
#[derive(Debug, Clone)]
pub struct VmConfig {
    /// The configured netdevs, in the order they were added; `add_netdev`
    /// refuses a repeated id, and a lookup takes the first match.
    pub netdevs: Option<Vec<NetDevcfg>>,
}

impl Default for VmConfig {
    /// No netdev configured.
    fn default() -> (c: VmConfig)
        ensures
            c.netdevs.deep_view() is None,
    {
        VmConfig { netdevs: None }
    }
}

/// The parser state of a parsed net device command string.
pub open spec fn spec_parse_net_state(cmd: Seq<char>) -> Option<CmdParserView> {
    apply_tokens(net_parser_init(), crate::strutil::spec_split(cmd, ','), 0)
}

/// When a net device command string yields a configuration: it parses, names
/// a netdev, that netdev is configured, and the assembled configuration
/// passes its validity check.
pub open spec fn parse_net_ok(netdevs: Option<Seq<NetDevcfgView>>, cmd: Seq<char>) -> bool {
    match spec_parse_net_state(cmd) {
        None => false,
        Some(p) => {
            &&& p.lookup("netdev"@) is Some
            &&& netdevs is Some
            &&& first_key(netdev_ids(netdevs.unwrap()), p.lookup("netdev"@).unwrap())
                < netdevs.unwrap().len()
            &&& iface_check_ok(parse_net_result(netdevs, cmd))
        },
    }
}

/// The interface configuration a net device command string assembles: its
/// own id and iothread from the command string, everything else from the
/// named netdev.
pub open spec fn parse_net_result(netdevs: Option<Seq<NetDevcfgView>>, cmd: Seq<char>)
    -> NetworkInterfaceConfigView {
    let p = spec_parse_net_state(cmd).unwrap();
    let devs = netdevs.unwrap();
    let nd = devs[first_key(netdev_ids(devs), p.lookup("netdev"@).unwrap())];
    NetworkInterfaceConfigView {
        id: match p.lookup("id"@) {
            Some(s) => s,
            None => Seq::empty(),
        },
        host_dev_name: nd.id,
        mac: nd.mac,
        tap_fd: nd.tap_fd,
        vhost_type: nd.vhost_type,
        vhost_fd: nd.vhost_fd,
        iothread: p.lookup("iothread"@),
    }
}

/// Parse a net device command string against the machine configuration,
/// assembling the guest-facing interface configuration from the named
/// netdev.
pub fn parse_net(vm_config: &VmConfig, net_config: &str) -> (r: Result<
    NetworkInterfaceConfig,
    ConfigError,
>)
    ensures
        r is Ok <==> parse_net_ok(vm_config.netdevs.deep_view(), net_config@),
        r matches Ok(cfg) ==> cfg@ == parse_net_result(vm_config.netdevs.deep_view(), net_config@),
{
    let mut cmd_parser = CmdParser::new("virtio-net-device");
    cmd_parser.push("");
    cmd_parser.push("id");
    cmd_parser.push("netdev");
    cmd_parser.push("mac");
    cmd_parser.push("fds");
    cmd_parser.push("vhost");
    cmd_parser.push("vhostfds");
    cmd_parser.push("iothread");
    proof {
        assert(cmd_parser@.keys =~= net_parser_keys());
        assert(cmd_parser@.vals =~= Seq::new(8, |i: int| None::<Seq<char>>));
        assert(cmd_parser@ =~= net_parser_init());
    }
    match cmd_parser.parse(net_config) {
        Ok(()) => {},
        Err(e) => {
            return Err(e);
        },
    }
    proof {
        lemma_net_parser_registered();
    }
    let mut netdevinterfacecfg = NetworkInterfaceConfig::default();
    let netdev = match cmd_parser.get_str("netdev") {
        Ok(Some(devname)) => devname,
        Ok(None) => {
            return Err(
                ConfigError::FieldIsMissing(String::from_str("netdev"), String::from_str("net")),
            );
        },
        Err(e) => {
            return Err(e);
        },
    };
    let netid = match cmd_parser.get_str("id") {
        Ok(Some(id)) => id,
        Ok(None) => String::new(),
        Err(e) => {
            return Err(e);
        },
    };
    netdevinterfacecfg.iothread = match cmd_parser.get_str("iothread") {
        Ok(v) => v,
        Err(e) => {
            return Err(e);
        },
    };
    match &vm_config.netdevs {
        None => {
            return Err(ConfigError::NoNetdevConfigured);
        },
        Some(devs) => {
            match find_netdev(devs, netdev.as_str()) {
                None => {
                    return Err(ConfigError::NetdevNotFound(netdev));
                },
                Some(i) => {
                    let netcfg = &devs[i];
                    netdevinterfacecfg.id = netid;
                    netdevinterfacecfg.host_dev_name = netcfg.id.clone();
                    netdevinterfacecfg.mac = clone_opt_string(&netcfg.mac);
                    netdevinterfacecfg.tap_fd = netcfg.tap_fd;
                    netdevinterfacecfg.vhost_fd = netcfg.vhost_fd;
                    netdevinterfacecfg.vhost_type = clone_opt_string(&netcfg.vhost_type);
                },
            }
        },
    }
    proof {
        assert(netdevinterfacecfg@ =~= parse_net_result(
            vm_config.netdevs.deep_view(),
            net_config@,
        ));
    }
    match netdevinterfacecfg.check() {
        Ok(()) => {},
        Err(e) => {
            return Err(e);
        },
    }
    Ok(netdevinterfacecfg)
}

/// The parser state of a parsed netdev command string.
pub open spec fn spec_parse_netdev_state(cmd: Seq<char>) -> Option<CmdParserView> {
    apply_tokens(netdev_parser_init(), crate::strutil::spec_split(cmd, ','), 0)
}

/// When a netdev command string can be added: it parses, builds a netdev
/// configuration, and no netdev of the same id has been added before.
pub open spec fn add_netdev_ok(netdevs: Option<Seq<NetDevcfgView>>, cmd: Seq<char>) -> bool {
    match spec_parse_netdev_state(cmd) {
        None => false,
        Some(p) => netdev_ok(p) && (match netdevs {
            Some(devs) => first_key(netdev_ids(devs), netdev_result(p).id) == devs.len(),
            None => true,
        }),
    }
}

/// The netdev run after a successful addition: what was there before (or
/// nothing), with the new configuration appended.
pub open spec fn add_netdev_result(netdevs: Option<Seq<NetDevcfgView>>, cmd: Seq<char>) -> Seq<
    NetDevcfgView,
> {
    let p = spec_parse_netdev_state(cmd).unwrap();
    (match netdevs {
        Some(devs) => devs,
        None => Seq::empty(),
    }).push(netdev_result(p))
}

impl VmConfig {
    /// Parse a netdev command string and add the configuration it names,
    /// rejecting a repeated id; a rejected addition changes nothing.
    pub fn add_netdev(&mut self, netdev_config: &str) -> (r: Result<(), ConfigError>)
        ensures
            r is Ok <==> add_netdev_ok(old(self).netdevs.deep_view(), netdev_config@),
            r is Ok ==> final(self).netdevs.deep_view() == Some(
                add_netdev_result(old(self).netdevs.deep_view(), netdev_config@),
            ),
            r is Err ==> final(self).netdevs.deep_view() == old(self).netdevs.deep_view(),
    {
        let mut cmd_parser = CmdParser::new("netdev");
        cmd_parser.push("");
        cmd_parser.push("id");
        cmd_parser.push("mac");
        cmd_parser.push("fds");
        cmd_parser.push("vhost");
        cmd_parser.push("vhostfds");
        proof {
            assert(cmd_parser@.keys =~= netdev_parser_keys());
            assert(cmd_parser@.vals =~= Seq::new(6, |i: int| None::<Seq<char>>));
            assert(cmd_parser@ =~= netdev_parser_init());
        }
        match cmd_parser.parse(netdev_config) {
            Ok(()) => {},
            Err(e) => {
                return Err(e);
            },
        }
        let drive_cfg = match parse_netdev(cmd_parser) {
            Ok(cfg) => cfg,
            Err(e) => {
                return Err(e);
            },
        };
        if self.netdevs.is_none() {
            self.netdevs = Some(Vec::new());
            proof {
                assert(self.netdevs.deep_view() matches Some(devs) && devs
                    =~= Seq::<NetDevcfgView>::empty());
            }
        }
        match &mut self.netdevs {
            Some(devs) => {
                match find_netdev(devs, drive_cfg.id.as_str()) {
                    Some(_) => {
                        return Err(ConfigError::NetdevAlreadyAdded(drive_cfg.id));
                    },
                    None => {
                        devs.push(drive_cfg);
                        proof {
                            assert(self.netdevs.deep_view() matches Some(ds) && ds
                                =~= add_netdev_result(
                                old(self).netdevs.deep_view(),
                                netdev_config@,
                            ));
                        }
                    },
                }
            },
            None => {},
        }
        Ok(())
    }
}

} // verus!
