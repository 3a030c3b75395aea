//! RFC 5424 syslog messages.
//!
//! A message reads `<PRI>1 TIMESTAMP HOSTNAME APP-NAME PROCID MSGID STRUCTURED-DATA MSG`. MSGID is
//! always the NILVALUE `-`; STRUCTURED-DATA optionally carries the event's target, module and
//! source location.

use crate::facility::{pri, spec_pri, Facility, Level};
use crate::timestamp::{
    ends_with_micros_utc, is_ascii_text, micros_utc_tail, rfc3339_micros, rfc3339_micros_now,
    rfc3339_micros_of, Timestamp,
};
use crate::wire::{
    all_ascii, decimal, opt_bytes, is_ascii_bytes, lemma_decimal_digits, pow10, put_decimal, put_slice,
    put_u8,
};
use vstd::prelude::*;
use vstd::string::StringSliceAdditionalSpecFns;
use vstd::utf8::{decode_utf8, encode_utf8, valid_utf8};

verus! {

/// Errors raised when a field value violates its RFC 5424 constraint. Each carries the rejected
/// bytes.
#[derive(Debug)]
pub enum Error {
    /// The app-name is not ASCII, or is longer than 48 bytes.
    BadAppName { name: Vec<u8> },
    /// The hostname is not ASCII, or is longer than 255 bytes.
    BadHostname { name: Vec<u8> },
    /// The proc-id is not ASCII, or is longer than 128 bytes.
    BadProcId { name: Vec<u8> },
}

/// The NILVALUE, `-`.
pub open spec fn nil_value() -> Seq<u8> {
    seq![45u8]
}

/// A valid RFC 5424 hostname: ASCII, at most 255 bytes.
pub open spec fn valid_hostname(b: Seq<u8>) -> bool {
    is_ascii_bytes(b) && b.len() < 256
}

/// A valid RFC 5424 app-name: ASCII, at most 48 bytes.
pub open spec fn valid_app_name(b: Seq<u8>) -> bool {
    is_ascii_bytes(b) && b.len() < 49
}

/// A valid RFC 5424 proc-id: ASCII, at most 128 bytes.
pub open spec fn valid_proc_id(b: Seq<u8>) -> bool {
    is_ascii_bytes(b) && b.len() < 129
}

/// The hostname that the fallback chain settles on: the host's name if it is valid, else its
/// IP address in text if that is valid, else the NILVALUE.
pub open spec fn resolved_hostname(host: Option<Seq<u8>>, ip: Option<Seq<u8>>) -> Seq<u8> {
    if host is Some && valid_hostname(host->0) {
        host->0
    } else if ip is Some && valid_hostname(ip->0) {
        ip->0
    } else {
        nil_value()
    }
}

/// The app-name that the fallback chain settles on: the executable's file name if it is known
/// and valid, else the NILVALUE.
pub open spec fn resolved_app_name(file_name: Option<Seq<u8>>) -> Seq<u8> {
    if file_name is Some && valid_app_name(file_name->0) {
        file_name->0
    } else {
        nil_value()
    }
}

fn nil_vec() -> (r: Vec<u8>)
    ensures
        r@ == nil_value(),
{
    let mut v: Vec<u8> = Vec::new();
    v.push(45u8);
    assert(v@ =~= nil_value());
    v
}

/// An RFC 5424 HOSTNAME: at most 255 bytes of ASCII.
pub struct Hostname {
    bytes: Vec<u8>,
}

impl View for Hostname {
    type V = Seq<u8>;

    closed spec fn view(&self) -> Seq<u8> {
        self.bytes@
    }
}

impl Hostname {
    #[verifier::type_invariant]
    spec fn inv(self) -> bool {
        valid_hostname(self.bytes@)
    }

    /// Accepts `bytes` if they are ASCII and at most 255 of them; returns them in
    /// `Error::BadHostname` otherwise.
    pub fn new(bytes: Vec<u8>) -> (r: Result<Hostname, Error>)
        ensures
            r is Ok <==> valid_hostname(bytes@),
            r matches Ok(h) ==> h@ == bytes@,
            r matches Err(e) ==> e matches Error::BadHostname { name } && name@ == bytes@,
    {
        if all_ascii(bytes.as_slice()) && bytes.len() < 256 {
            Ok(Hostname { bytes })
        } else {
            Err(Error::BadHostname { name: bytes })
        }
    }

    /// As `new`, on the bytes of `x`.
    pub fn try_from(x: String) -> (r: Result<Hostname, Error>)
        ensures
            r is Ok <==> valid_hostname(encode_utf8(x@)),
            r matches Ok(h) ==> h@ == encode_utf8(x@),
            r matches Err(e) ==> e is BadHostname,
    {
        Hostname::new(x.as_str().as_bytes_vec())
    }

    /// Settles the hostname by the fallback chain: `host` (the name the operating system
    /// reports), else `ip` (a local IP address in text), else the NILVALUE. Never fails.
    pub fn resolve(host: Option<Vec<u8>>, ip: Option<Vec<u8>>) -> (r: Hostname)
        ensures
            r@ == resolved_hostname(
                opt_bytes(host),
                opt_bytes(ip),
            ),
    {
        let ghost gh = opt_bytes(host);
        let ghost gi = opt_bytes(ip);
        if let Some(h) = host {
            if let Ok(r) = Hostname::new(h) {
                return r;
            }
        }
        if let Some(a) = ip {
            if let Ok(r) = Hostname::new(a) {
                return r;
            }
        }
        let r = Hostname { bytes: nil_vec() };
        assert(r@ == resolved_hostname(gh, gi));
        r
    }

    /// The hostname's bytes.
    pub fn as_bytes(&self) -> (r: &[u8])
        ensures
            r@ == self@,
            valid_hostname(r@),
    {
        proof {
            use_type_invariant(self);
        }
        self.bytes.as_slice()
    }
}

/// An RFC 5424 APP-NAME: at most 48 bytes of ASCII.
pub struct AppName {
    bytes: Vec<u8>,
}

impl View for AppName {
    type V = Seq<u8>;

    closed spec fn view(&self) -> Seq<u8> {
        self.bytes@
    }
}

impl AppName {
    #[verifier::type_invariant]
    spec fn inv(self) -> bool {
        valid_app_name(self.bytes@)
    }

    /// Accepts `bytes` if they are ASCII and at most 48 of them; returns them in
    /// `Error::BadAppName` otherwise.
    pub fn new(bytes: Vec<u8>) -> (r: Result<AppName, Error>)
        ensures
            r is Ok <==> valid_app_name(bytes@),
            r matches Ok(a) ==> a@ == bytes@,
            r matches Err(e) ==> e matches Error::BadAppName { name } && name@ == bytes@,
    {
        if all_ascii(bytes.as_slice()) && bytes.len() < 49 {
            Ok(AppName { bytes })
        } else {
            Err(Error::BadAppName { name: bytes })
        }
    }

    /// As `new`, on the bytes of `x`.
    pub fn try_from(x: String) -> (r: Result<AppName, Error>)
        ensures
            r is Ok <==> valid_app_name(encode_utf8(x@)),
            r matches Ok(a) ==> a@ == encode_utf8(x@),
            r matches Err(e) ==> e is BadAppName,
    {
        AppName::new(x.as_str().as_bytes_vec())
    }

    /// The app-name for an executable whose file name is `file_name` (`None` where it cannot be
    /// determined): that name if it is valid, else the NILVALUE. Never fails.
    pub fn from_exe_file_name(file_name: Option<Vec<u8>>) -> (r: AppName)
        ensures
            r@ == resolved_app_name(
                opt_bytes(file_name),
            ),
    {
        if let Some(f) = file_name {
            if let Ok(r) = AppName::new(f) {
                return r;
            }
        }
        AppName { bytes: nil_vec() }
    }

    /// The app-name's bytes.
    pub fn as_bytes(&self) -> (r: &[u8])
        ensures
            r@ == self@,
            valid_app_name(r@),
    {
        proof {
            use_type_invariant(self);
        }
        self.bytes.as_slice()
    }
}

/// An RFC 5424 PROCID: at most 128 bytes of ASCII.
pub struct ProcId {
    bytes: Vec<u8>,
}

impl View for ProcId {
    type V = Seq<u8>;

    closed spec fn view(&self) -> Seq<u8> {
        self.bytes@
    }
}

impl ProcId {
    #[verifier::type_invariant]
    spec fn inv(self) -> bool {
        valid_proc_id(self.bytes@)
    }

    /// Accepts `bytes` if they are ASCII and at most 128 of them; returns them in
    /// `Error::BadProcId` otherwise.
    pub fn new(bytes: Vec<u8>) -> (r: Result<ProcId, Error>)
        ensures
            r is Ok <==> valid_proc_id(bytes@),
            r matches Ok(p) ==> p@ == bytes@,
            r matches Err(e) ==> e matches Error::BadProcId { name } && name@ == bytes@,
    {
        if all_ascii(bytes.as_slice()) && bytes.len() < 129 {
            Ok(ProcId { bytes })
        } else {
            Err(Error::BadProcId { name: bytes })
        }
    }

    /// As `new`, on the bytes of `x`.
    pub fn try_from(x: String) -> (r: Result<ProcId, Error>)
        ensures
            r is Ok <==> valid_proc_id(encode_utf8(x@)),
            r matches Ok(p) ==> p@ == encode_utf8(x@),
            r matches Err(e) ==> e is BadProcId,
    {
        ProcId::new(x.as_str().as_bytes_vec())
    }

    /// The proc-id of the process with id `pid`: the id in decimal. Never fails.
    pub fn from_pid(pid: u32) -> (r: ProcId)
        ensures
            r@ == decimal(pid as nat),
    {
        let mut bytes: Vec<u8> = Vec::new();
        put_decimal(&mut bytes, pid);
        proof {
            assert(bytes@ =~= decimal(pid as nat));
            reveal_with_fuel(pow10, 11);
            assert(pow10(10) == 10_000_000_000);
            lemma_decimal_digits(pid as nat, 10);
        }
        ProcId { bytes }
    }

    /// The proc-id's bytes.
    pub fn as_bytes(&self) -> (r: &[u8])
        ensures
            r@ == self@,
            valid_proc_id(r@),
    {
        proof {
            use_type_invariant(self);
        }
        self.bytes.as_slice()
    }
}

/// What an event tells about where it was raised: the metadata that STRUCTURED-DATA can carry.
pub struct EventMetadata {
    /// The event's target; an empty target counts as absent.
    pub target: String,
    /// The path of the module that raised the event.
    pub module: Option<String>,
    /// The source file that raised the event.
    pub file: Option<String>,
    /// The line in that file.
    pub line: Option<u32>,
}

/// The SD-ID used when none is configured.
pub open spec fn default_sd_id() -> Seq<char> {
    "tracing-meta@64700"@
}

/// Which event metadata go into STRUCTURED-DATA, and under which SD-ID (empty for the default).
pub struct SdConfigView {
    pub sd_id: Seq<char>,
    pub target: bool,
    pub module: bool,
    pub source_location: bool,
}

/// The configuration of a structured-data element that has not been set up yet.
pub open spec fn sd_config_or_default(c: Option<SdConfigView>) -> SdConfigView {
    match c {
        Some(c) => c,
        None => SdConfigView { sd_id: seq![], target: false, module: false, source_location: false },
    }
}

struct SdConfig {
    sd_id: String,
    target: bool,
    module: bool,
    source_location: bool,
}

impl View for SdConfig {
    type V = SdConfigView;

    closed spec fn view(&self) -> SdConfigView {
        SdConfigView {
            sd_id: self.sd_id@,
            target: self.target,
            module: self.module,
            source_location: self.source_location,
        }
    }
}

/// The bytes of the SD-ID in use.
pub open spec fn sd_id_bytes(c: SdConfigView) -> Seq<u8> {
    if c.sd_id.len() == 0 {
        encode_utf8(default_sd_id())
    } else {
        encode_utf8(c.sd_id)
    }
}

/// A byte of a PARAM-VALUE, escaped: `\`, `"` and `]` get a backslash in front.
pub open spec fn escape_byte(b: u8) -> Seq<u8> {
    if b == 92 || b == 34 || b == 93 {
        seq![92u8, b]
    } else {
        seq![b]
    }
}

/// A PARAM-VALUE, escaped byte by byte.
pub open spec fn sd_escape(s: Seq<u8>) -> Seq<u8>
    decreases s.len(),
{
    if s.len() == 0 {
        seq![]
    } else {
        sd_escape(s.drop_last()) + escape_byte(s.last())
    }
}

/// An SD-PARAM: `opening` (a space, the name, `=` and the opening quote), the value, and the
/// closing quote.
pub open spec fn sd_param(opening: Seq<char>, value: Seq<u8>) -> Seq<u8> {
    encode_utf8(opening) + value + seq![34u8]
}

/// The target goes into the element.
pub open spec fn has_target(c: SdConfigView, md: EventMetadata) -> bool {
    c.target && md.target@.len() > 0
}

/// The module path goes into the element.
pub open spec fn has_module(c: SdConfigView, md: EventMetadata) -> bool {
    c.module && md.module is Some
}

/// Some part of the source location goes into the element.
pub open spec fn has_location(c: SdConfigView, md: EventMetadata) -> bool {
    c.source_location && (md.file is Some || md.line is Some)
}

/// The `target` SD-PARAM, if the target goes into the element.
pub open spec fn target_param(c: SdConfigView, md: EventMetadata) -> Seq<u8> {
    if has_target(c, md) {
        sd_param(" target=\""@, sd_escape(encode_utf8(md.target@)))
    } else {
        seq![]
    }
}

/// The `module` SD-PARAM, if the module path goes into the element.
pub open spec fn module_param(c: SdConfigView, md: EventMetadata) -> Seq<u8> {
    if has_module(c, md) {
        sd_param(" module=\""@, sd_escape(encode_utf8(md.module->0@)))
    } else {
        seq![]
    }
}

/// The `file` SD-PARAM, if the source location is configured and the file is known.
pub open spec fn file_param(c: SdConfigView, md: EventMetadata) -> Seq<u8> {
    if c.source_location && md.file is Some {
        sd_param(" file=\""@, sd_escape(encode_utf8(md.file->0@)))
    } else {
        seq![]
    }
}

/// The `line` SD-PARAM, if the source location is configured and the line is known.
pub open spec fn line_param(c: SdConfigView, md: EventMetadata) -> Seq<u8> {
    if c.source_location && md.line is Some {
        sd_param(" line=\""@, decimal(md.line->0 as nat))
    } else {
        seq![]
    }
}

/// The SD-PARAMs of the element, in the fixed order target, module, file, line.
pub open spec fn sd_params(c: SdConfigView, md: EventMetadata) -> Seq<u8> {
    target_param(c, md) + module_param(c, md) + file_param(c, md) + line_param(c, md)
}

/// The STRUCTURED-DATA field: one element `[SD-ID params]` when structured data is configured
/// and at least one configured parameter is present in `md`, else the NILVALUE.
pub open spec fn structured_data(cfg: Option<SdConfigView>, md: EventMetadata) -> Seq<u8> {
    match cfg {
        None => nil_value(),
        Some(c) => if has_target(c, md) || has_module(c, md) || has_location(c, md) {
            seq![91u8] + sd_id_bytes(c) + sd_params(c, md) + seq![93u8]
        } else {
            nil_value()
        },
    }
}

/// The UTF-8 byte-order mark.
pub open spec fn bom() -> Seq<u8> {
    seq![0xEFu8, 0xBBu8, 0xBFu8]
}

/// The configuration of an RFC 5424 formatter.
pub struct Rfc5424View {
    pub facility: Facility,
    pub hostname: Seq<u8>,
    pub appname: Seq<u8>,
    pub procid: Seq<u8>,
    pub with_bom: bool,
    pub structured_data: Option<SdConfigView>,
}

/// The message up to STRUCTURED-DATA: `<PRI>1 TIMESTAMP HOSTNAME APP-NAME PROCID - `.
pub open spec fn header(v: Rfc5424View, level: Level, ts: Seq<u8>) -> Seq<u8> {
    seq![60u8] + decimal(spec_pri(v.facility, level) as nat) + seq![62u8, 49u8, 32u8] + ts + seq![
        32u8,
    ] + v.hostname + seq![32u8] + v.appname + seq![32u8] + v.procid + seq![32u8, 45u8, 32u8]
}

/// The message that a formatter configured as `v` produces for an event of level `level`, text
/// `msg`, metadata `md`, at the instant that `ts` renders.
pub open spec fn message(
    v: Rfc5424View,
    level: Level,
    msg: Seq<char>,
    ts: Seq<u8>,
    md: EventMetadata,
) -> Seq<u8> {
    header(v, level, ts) + structured_data(v.structured_data, md) + seq![32u8] + (if v.with_bom {
        bom()
    } else {
        seq![]
    }) + encode_utf8(msg)
}

/// Appends `s` with `\\`, `"` and `]` escaped.
fn put_escaped(buf: &mut Vec<u8>, s: &[u8])
    ensures
        final(buf)@ == old(buf)@ + sd_escape(s@),
{
    let mut i: usize = 0;
    while i < s.len()
        invariant
            0 <= i <= s@.len(),
            buf@ == old(buf)@ + sd_escape(s@.subrange(0, i as int)),
        decreases s@.len() - i,
    {
        let b = s[i];
        let ghost before = buf@;
        if b == 92 || b == 34 || b == 93 {
            put_u8(buf, 92);
        }
        put_u8(buf, b);
        proof {
            let sub = s@.subrange(0, i + 1);
            assert(sub.drop_last() =~= s@.subrange(0, i as int));
            assert(buf@ =~= before + escape_byte(b));
            assert(buf@ =~= old(buf)@ + sd_escape(sub));
        }
        i = i + 1;
    }
    assert(s@.subrange(0, s@.len() as int) =~= s@);
}

/// Appends an SD-PARAM: `opening`, then `value` escaped, then the closing quote.
fn put_escaped_param(buf: &mut Vec<u8>, opening: &str, value: &str)
    ensures
        final(buf)@ == old(buf)@ + sd_param(opening@, sd_escape(encode_utf8(value@))),
{
    put_slice(buf, opening.as_bytes());
    put_escaped(buf, value.as_bytes());
    put_u8(buf, 34);
    assert(buf@ =~= old(buf)@ + sd_param(opening@, sd_escape(encode_utf8(value@))));
}

/// Appends the `target` SD-PARAM that `c` selects from `md`.
fn put_target_param(c: &SdConfig, buf: &mut Vec<u8>, md: &EventMetadata)
    ensures
        final(buf)@ == old(buf)@ + target_param(c@, *md),
{
    if c.target && !md.target.as_str().is_empty() {
        put_escaped_param(buf, " target=\"", md.target.as_str());
    } else {
        assert(buf@ =~= old(buf)@ + target_param(c@, *md));
    }
}

/// Appends the `module` SD-PARAM that `c` selects from `md`.
fn put_module_param(c: &SdConfig, buf: &mut Vec<u8>, md: &EventMetadata)
    ensures
        final(buf)@ == old(buf)@ + module_param(c@, *md),
{
    if c.module {
        match &md.module {
            Some(m) => {
                put_escaped_param(buf, " module=\"", m.as_str());
                return;
            },
            None => {},
        }
    }
    assert(buf@ =~= old(buf)@ + module_param(c@, *md));
}

/// Appends the `file` SD-PARAM that `c` selects from `md`.
fn put_file_param(c: &SdConfig, buf: &mut Vec<u8>, md: &EventMetadata)
    ensures
        final(buf)@ == old(buf)@ + file_param(c@, *md),
{
    if c.source_location {
        match &md.file {
            Some(f) => {
                put_escaped_param(buf, " file=\"", f.as_str());
                return;
            },
            None => {},
        }
    }
    assert(buf@ =~= old(buf)@ + file_param(c@, *md));
}

/// Appends the `line` SD-PARAM that `c` selects from `md`.
fn put_line_param(c: &SdConfig, buf: &mut Vec<u8>, md: &EventMetadata)
    ensures
        final(buf)@ == old(buf)@ + line_param(c@, *md),
{
    if c.source_location {
        match md.line {
            Some(l) => {
                put_slice(buf, " line=\"".as_bytes());
                put_decimal(buf, l);
                put_u8(buf, 34);
                assert(buf@ =~= old(buf)@ + line_param(c@, *md));
                return;
            },
            None => {},
        }
    }
    assert(buf@ =~= old(buf)@ + line_param(c@, *md));
}

/// Appends the SD-PARAMs that `c` selects from `md`.
fn put_sd_params(c: &SdConfig, buf: &mut Vec<u8>, md: &EventMetadata)
    ensures
        final(buf)@ == old(buf)@ + sd_params(c@, *md),
{
    put_target_param(c, buf, md);
    put_module_param(c, buf, md);
    put_file_param(c, buf, md);
    put_line_param(c, buf, md);
    assert(buf@ =~= old(buf)@ + sd_params(c@, *md));
}

/// A syslog formatter that produces RFC 5424 messages.
pub struct Rfc5424 {
    facility: Facility,
    hostname: Hostname,
    appname: AppName,
    pid: ProcId,
    with_bom: bool,
    with_tracing_metadata: Option<SdConfig>,
}

impl View for Rfc5424 {
    type V = Rfc5424View;

    closed spec fn view(&self) -> Rfc5424View {
        Rfc5424View {
            facility: self.facility,
            hostname: self.hostname@,
            appname: self.appname@,
            procid: self.pid@,
            with_bom: self.with_bom,
            structured_data: match self.with_tracing_metadata {
                Some(c) => Some(c@),
                None => None,
            },
        }
    }
}

impl Rfc5424 {
    /// A formatter with the given fields, facility `LOG_USER`, no byte-order mark and no
    /// structured data.
    pub fn new(hostname: Hostname, appname: AppName, pid: ProcId) -> (r: Rfc5424)
        ensures
            r@ == (Rfc5424View {
                facility: Facility::LOG_USER,
                hostname: hostname@,
                appname: appname@,
                procid: pid@,
                with_bom: false,
                structured_data: None,
            }),
    {
        Rfc5424 {
            facility: Facility::LOG_USER,
            hostname,
            appname,
            pid,
            with_bom: false,
            with_tracing_metadata: None,
        }
    }

    /// A builder that starts from `Rfc5424::new(hostname, appname, pid)`.
    pub fn builder(hostname: Hostname, appname: AppName, pid: ProcId) -> (r: Rfc5424Builder)
        ensures
            r@ == (Rfc5424View {
                facility: Facility::LOG_USER,
                hostname: hostname@,
                appname: appname@,
                procid: pid@,
                with_bom: false,
                structured_data: None,
            }),
    {
        Rfc5424Builder { imp: Rfc5424::new(hostname, appname, pid) }
    }

    /// Appends the STRUCTURED-DATA field for an event with metadata `md`.
    fn put_structured_data(&self, buf: &mut Vec<u8>, md: &EventMetadata)
        ensures
            final(buf)@ == old(buf)@ + structured_data(self@.structured_data, *md),
    {
        match &self.with_tracing_metadata {
            None => {
                put_u8(buf, 45);
                assert(buf@ =~= old(buf)@ + nil_value());
            },
            Some(c) => {
                let ghost cv = c@;
                let has_t = c.target && !md.target.as_str().is_empty();
                let has_m = c.module && md.module.is_some();
                let has_l = c.source_location && (md.file.is_some() || md.line.is_some());
                if has_t || has_m || has_l {
                    put_u8(buf, 91);
                    if c.sd_id.as_str().is_empty() {
                        put_slice(buf, "tracing-meta@64700".as_bytes());
                    } else {
                        put_slice(buf, c.sd_id.as_str().as_bytes());
                    }
                    let ghost opened = buf@;
                    assert(opened =~= old(buf)@ + seq![91u8] + sd_id_bytes(cv));
                    put_sd_params(c, buf, md);
                    put_u8(buf, 93);
                    assert(buf@ =~= old(buf)@ + structured_data(self@.structured_data, *md));
                } else {
                    put_u8(buf, 45);
                    assert(buf@ =~= old(buf)@ + nil_value());
                }
            },
        }
    }

    /// The message for an event of level `level` with text `msg` and metadata `metadata`,
    /// stamped with the already rendered `timestamp`.
    pub fn format_at(&self, level: Level, msg: &str, timestamp: &str, metadata: &EventMetadata) -> (r:
        Vec<u8>)
        ensures
            r@ == message(self@, level, msg@, timestamp.spec_bytes(), *metadata),
    {
        let mut buf: Vec<u8> = Vec::new();
        put_u8(&mut buf, 60);
        put_decimal(&mut buf, pri(self.facility, level) as u32);
        put_u8(&mut buf, 62);
        put_u8(&mut buf, 49);
        put_u8(&mut buf, 32);
        put_slice(&mut buf, timestamp.as_bytes());
        put_u8(&mut buf, 32);
        put_slice(&mut buf, self.hostname.as_bytes());
        put_u8(&mut buf, 32);
        put_slice(&mut buf, self.appname.as_bytes());
        put_u8(&mut buf, 32);
        put_slice(&mut buf, self.pid.as_bytes());
        put_u8(&mut buf, 32);
        put_u8(&mut buf, 45);
        put_u8(&mut buf, 32);
        let ghost head = buf@;
        assert(head =~= header(self@, level, timestamp.spec_bytes()));
        self.put_structured_data(&mut buf, metadata);
        put_u8(&mut buf, 32);
        if self.with_bom {
            put_u8(&mut buf, 0xEF);
            put_u8(&mut buf, 0xBB);
            put_u8(&mut buf, 0xBF);
        }
        put_slice(&mut buf, msg.as_bytes());
        assert(buf@ =~= message(self@, level, msg@, timestamp.spec_bytes(), *metadata));
        buf
    }

    /// The message for an event of level `level` with text `msg` and metadata `metadata`, at
    /// `timestamp`, or now where it is `None`. The timestamp is rendered in RFC 3339 with exactly
    /// six digits of fractional seconds and the offset `+00:00`. Never fails.
    pub fn format(
        &self,
        level: Level,
        msg: &str,
        timestamp: Option<Timestamp>,
        metadata: &EventMetadata,
    ) -> (r: Result<Vec<u8>, Error>)
        ensures
            r is Ok,
            timestamp matches Some(t) ==> r->Ok_0@ == message(
                self@,
                level,
                msg@,
                encode_utf8(rfc3339_micros_of(t.spec_secs() as int, t.spec_nanos() as int)),
                *metadata,
            ),
            exists|ts: Seq<char>|
                is_ascii_text(ts) && ends_with_micros_utc(ts) && r->Ok_0@ == #[trigger] message(
                    self@,
                    level,
                    msg@,
                    encode_utf8(ts),
                    *metadata,
                ),
    {
        let ts = match timestamp {
            Some(t) => {
                let ts = rfc3339_micros(&t);
                let micros = t.nanos() / 1000;
                assert(micros_utc_tail(micros as int) == ts@.subrange(
                    ts@.len() - 13,
                    ts@.len() as int,
                ));
                ts
            },
            None => rfc3339_micros_now(),
        };
        assert(ends_with_micros_utc(ts@));
        let out = self.format_at(level, msg, ts.as_str(), metadata);
        Ok(out)
    }
}

/// Builds an `Rfc5424` field by field.
pub struct Rfc5424Builder {
    imp: Rfc5424,
}

impl View for Rfc5424Builder {
    type V = Rfc5424View;

    closed spec fn view(&self) -> Rfc5424View {
        self.imp@
    }
}

impl Rfc5424Builder {
    /// Sets the facility.
    pub fn facility(self, facility: Facility) -> (r: Self)
        ensures
            r@ == (Rfc5424View { facility, ..self@ }),
    {
        let mut b = self;
        b.imp.facility = facility;
        b
    }

    /// Sets the hostname.
    pub fn hostname(self, hostname: Hostname) -> (r: Self)
        ensures
            r@ == (Rfc5424View { hostname: hostname@, ..self@ }),
    {
        let mut b = self;
        b.imp.hostname = hostname;
        b
    }

    /// Sets the hostname from text; fails with `Error::BadHostname` where it is invalid.
    pub fn hostname_as_string(self, hostname: String) -> (r: Result<Self, Error>)
        ensures
            r is Ok <==> valid_hostname(encode_utf8(hostname@)),
            r matches Ok(b) ==> b@ == (Rfc5424View { hostname: encode_utf8(hostname@), ..self@ }),
            r matches Err(e) ==> e is BadHostname,
    {
        match Hostname::try_from(hostname) {
            Ok(h) => Ok(self.hostname(h)),
            Err(e) => Err(e),
        }
    }

    /// Sets the app-name from text; fails with `Error::BadAppName` where it is invalid.
    pub fn appname_as_string(self, appname: String) -> (r: Result<Self, Error>)
        ensures
            r is Ok <==> valid_app_name(encode_utf8(appname@)),
            r matches Ok(b) ==> b@ == (Rfc5424View { appname: encode_utf8(appname@), ..self@ }),
            r matches Err(e) ==> e is BadAppName,
    {
        match AppName::try_from(appname) {
            Ok(a) => {
                let mut b = self;
                b.imp.appname = a;
                Ok(b)
            },
            Err(e) => Err(e),
        }
    }

    /// Sets the proc-id from text; fails with `Error::BadProcId` where it is invalid.
    pub fn pid_as_string(self, pid: String) -> (r: Result<Self, Error>)
        ensures
            r is Ok <==> valid_proc_id(encode_utf8(pid@)),
            r matches Ok(b) ==> b@ == (Rfc5424View { procid: encode_utf8(pid@), ..self@ }),
            r matches Err(e) ==> e is BadProcId,
    {
        match ProcId::try_from(pid) {
            Ok(p) => {
                let mut b = self;
                b.imp.pid = p;
                Ok(b)
            },
            Err(e) => Err(e),
        }
    }

    /// Whether to put the UTF-8 byte-order mark before the message text.
    pub fn with_bom(self, with_bom: bool) -> (r: Self)
        ensures
            r@ == (Rfc5424View { with_bom, ..self@ }),
    {
        let mut b = self;
        b.imp.with_bom = with_bom;
        b
    }

    /// The structured-data configuration, set up with its defaults if it was not yet.
    fn sd_config(&self) -> (r: SdConfig)
        ensures
            r@ == sd_config_or_default(self@.structured_data),
    {
        match &self.imp.with_tracing_metadata {
            Some(c) => SdConfig {
                sd_id: c.sd_id.clone(),
                target: c.target,
                module: c.module,
                source_location: c.source_location,
            },
            None => SdConfig {
                sd_id: String::new(),
                target: false,
                module: false,
                source_location: false,
            },
        }
    }

    /// Uses `sd_id` as the SD-ID of the structured data (an empty one means the default,
    /// `tracing-meta@64700`).
    pub fn with_tracing_metadata_sdid(self, sd_id: String) -> (r: Self)
        ensures
            r@ == (Rfc5424View {
                structured_data: Some(
                    SdConfigView { sd_id: sd_id@, ..sd_config_or_default(self@.structured_data) },
                ),
                ..self@
            }),
    {
        let mut b = self;
        let mut c = b.sd_config();
        c.sd_id = sd_id;
        b.imp.with_tracing_metadata = Some(c);
        b
    }

    /// Whether the structured data carries the event's target.
    pub fn with_tracing_target(self, with_target: bool) -> (r: Self)
        ensures
            r@ == (Rfc5424View {
                structured_data: Some(
                    SdConfigView {
                        target: with_target,
                        ..sd_config_or_default(self@.structured_data)
                    },
                ),
                ..self@
            }),
    {
        let mut b = self;
        let mut c = b.sd_config();
        c.target = with_target;
        b.imp.with_tracing_metadata = Some(c);
        b
    }

    /// Whether the structured data carries the event's module path.
    pub fn with_tracing_module(self, with_module: bool) -> (r: Self)
        ensures
            r@ == (Rfc5424View {
                structured_data: Some(
                    SdConfigView {
                        module: with_module,
                        ..sd_config_or_default(self@.structured_data)
                    },
                ),
                ..self@
            }),
    {
        let mut b = self;
        let mut c = b.sd_config();
        c.module = with_module;
        b.imp.with_tracing_metadata = Some(c);
        b
    }

    /// Whether the structured data carries the event's file and line.
    pub fn with_tracing_source_location(self, with_source_location: bool) -> (r: Self)
        ensures
            r@ == (Rfc5424View {
                structured_data: Some(
                    SdConfigView {
                        source_location: with_source_location,
                        ..sd_config_or_default(self@.structured_data)
                    },
                ),
                ..self@
            }),
    {
        let mut b = self;
        let mut c = b.sd_config();
        c.source_location = with_source_location;
        b.imp.with_tracing_metadata = Some(c);
        b
    }

    /// The formatter.
    pub fn build(self) -> (r: Rfc5424)
        ensures
            r@ == self@,
    {
        self.imp
    }
}

/// Turning the byte-order mark on changes a message in one way only: the three bytes EF BB BF
/// appear right before the message text.
pub proof fn lemma_bom_inserts_only_the_mark(
    v: Rfc5424View,
    level: Level,
    msg: Seq<char>,
    ts: Seq<u8>,
    md: EventMetadata,
)
    ensures
        ({
            let plain = message(Rfc5424View { with_bom: false, ..v }, level, msg, ts, md);
            let marked = message(Rfc5424View { with_bom: true, ..v }, level, msg, ts, md);
            let k = plain.len() - encode_utf8(msg).len();
            &&& 0 <= k
            &&& marked.len() == plain.len() + 3
            &&& marked.subrange(0, k) == plain.subrange(0, k)
            &&& marked.subrange(k, k + 3) == bom()
            &&& marked.subrange(k + 3, marked.len() as int) == plain.subrange(k, plain.len() as int)
        }),
{
    let pv = Rfc5424View { with_bom: false, ..v };
    let mv = Rfc5424View { with_bom: true, ..v };
    let text = encode_utf8(msg);
    let prefix = header(pv, level, ts) + structured_data(v.structured_data, md) + seq![32u8];
    assert(header(pv, level, ts) == header(mv, level, ts));
    let plain = message(pv, level, msg, ts, md);
    let marked = message(mv, level, msg, ts, md);
    assert(plain =~= prefix + text);
    assert(marked =~= prefix + bom() + text);
    let k = prefix.len() as int;
    assert(marked.subrange(0, k) =~= plain.subrange(0, k));
    assert(marked.subrange(k, k + 3) =~= bom());
    assert(marked.subrange(k + 3, marked.len() as int) =~= plain.subrange(k, plain.len() as int));
}

/// Formatting is a function of its inputs: the same formatter, level, text, rendered timestamp
/// and metadata give the same bytes on every call.
pub proof fn lemma_format_deterministic(
    v: Rfc5424View,
    level: Level,
    msg: Seq<char>,
    ts: Seq<u8>,
    md: EventMetadata,
    first: Seq<u8>,
    second: Seq<u8>,
)
    requires
        first == message(v, level, msg, ts, md),
        second == message(v, level, msg, ts, md),
    ensures
        first == second,
{
}

/// The message text comes through unchanged: the message ends with its UTF-8 encoding, which
/// is valid UTF-8 and decodes back to the text.
pub proof fn lemma_text_preserved(
    v: Rfc5424View,
    level: Level,
    msg: Seq<char>,
    ts: Seq<u8>,
    md: EventMetadata,
)
    ensures
        ({
            let m = message(v, level, msg, ts, md);
            let text = encode_utf8(msg);
            &&& m.len() >= text.len()
            &&& m.subrange(m.len() - text.len(), m.len() as int) == text
            &&& valid_utf8(text)
            &&& decode_utf8(text) == msg
        }),
{
    let m = message(v, level, msg, ts, md);
    let text = encode_utf8(msg);
    let prefix = header(v, level, ts) + structured_data(v.structured_data, md) + seq![32u8] + (if v.with_bom {
        bom()
    } else {
        seq![]
    });
    assert(m =~= prefix + text);
    assert(m.subrange(m.len() - text.len(), m.len() as int) =~= text);
    vstd::utf8::encode_utf8_valid_utf8(msg);
    vstd::utf8::encode_utf8_decode_utf8(msg);
}

/// With only the target enabled under the default SD-ID, an event with a non-empty target gets
/// the element `[tracing-meta@64700 target="..."]`, the target escaped; with nothing enabled,
/// or no structured data configured, the field is the NILVALUE.
pub proof fn lemma_target_only_structured_data(md: EventMetadata)
    requires
        md.target@.len() > 0,
    ensures
        structured_data(
            Some(SdConfigView { sd_id: seq![], target: true, module: false, source_location: false }),
            md,
        ) == seq![91u8] + encode_utf8("tracing-meta@64700"@) + encode_utf8(" target=\""@)
            + sd_escape(encode_utf8(md.target@)) + seq![34u8, 93u8],
        structured_data(Some(sd_config_or_default(None)), md) == nil_value(),
        structured_data(None, md) == nil_value(),
{
    let c = SdConfigView { sd_id: seq![], target: true, module: false, source_location: false };
    assert(sd_params(c, md) =~= sd_param(" target=\""@, sd_escape(encode_utf8(md.target@))));
    assert(structured_data(Some(c), md) =~= seq![91u8] + encode_utf8("tracing-meta@64700"@)
        + encode_utf8(" target=\""@) + sd_escape(encode_utf8(md.target@)) + seq![34u8, 93u8]);
}

} // verus!
