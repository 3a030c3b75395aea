//! RFC 3164 (BSD) syslog messages.
//!
//! A message reads `<PRI>Mmm _d HH:MM:SS HOSTNAME TAG[PID]: MSG`, with the time in the machine's
//! time zone and without a year.

use crate::facility::{pri, spec_pri, Facility, Level};
use crate::timestamp::{bsd_local_now, bsd_local_time, is_bsd_time, Timestamp};
use crate::wire::{decimal, opt_bytes, put_decimal, put_slice, put_u8};
use vstd::prelude::*;
use vstd::string::StringSliceAdditionalSpecFns;
use vstd::utf8::{decode_utf8, encode_utf8, valid_utf8};

verus! {

/// Errors raised when a field value violates its RFC 3164 constraint, or cannot be found.
#[derive(Debug)]
pub enum Error {
    /// The hostname holds a byte outside the printable ASCII range 33..=127.
    BadHostname { name: Vec<u8> },
    /// Neither a usable hostname nor a usable local IP address could be found.
    BadIpAddress,
    /// The tag holds a byte that is not an ASCII letter or digit, or is longer than 32 bytes.
    BadTag { name: Vec<u8> },
    /// The executable's file name is unknown, or keeps no letter or digit.
    NoTag,
}

/// A valid RFC 3164 hostname: every byte is printable ASCII, above the space.
pub open spec fn valid_hostname(b: Seq<u8>) -> bool {
    forall|i: int| 0 <= i < b.len() ==> 32 < #[trigger] b[i] < 128
}

/// The position of the first `.` in `b`, or its length if there is none.
pub open spec fn dot_index(b: Seq<u8>) -> nat
    decreases b.len(),
{
    if b.len() == 0 {
        0
    } else if b[0] == 46 {
        0
    } else {
        1 + dot_index(b.subrange(1, b.len() as int))
    }
}

/// `b` without its domain: everything from the first `.` on is dropped.
pub open spec fn strip_domain_of(b: Seq<u8>) -> Seq<u8> {
    b.subrange(0, dot_index(b) as int)
}

proof fn lemma_dot_index(b: Seq<u8>, i: int)
    requires
        0 <= i <= b.len(),
        forall|j: int| 0 <= j < i ==> b[j] != 46,
        i == b.len() || b[i] == 46,
    ensures
        dot_index(b) == i,
    decreases i,
{
    if i > 0 {
        let rest = b.subrange(1, b.len() as int);
        assert forall|j: int| 0 <= j < i - 1 implies rest[j] != 46 by {
            assert(rest[j] == b[j + 1]);
        }
        if i < b.len() {
            assert(rest[i - 1] == b[i]);
        }
        lemma_dot_index(rest, i - 1);
    }
}

/// The hostname that the fallback chain settles on, if any: the host's name without its domain
/// if that is valid, else the local IP address in text if that is valid.
pub open spec fn resolved_hostname(host: Option<Seq<u8>>, ip: Option<Seq<u8>>) -> Option<Seq<u8>> {
    if host is Some && valid_hostname(strip_domain_of(host->0)) {
        Some(strip_domain_of(host->0))
    } else if ip is Some && valid_hostname(ip->0) {
        Some(ip->0)
    } else {
        None
    }
}

/// An RFC 3164 HOSTNAME: printable ASCII above the space.
pub struct Rfc3164Hostname {
    bytes: Vec<u8>,
}

impl View for Rfc3164Hostname {
    type V = Seq<u8>;

    closed spec fn view(&self) -> Seq<u8> {
        self.bytes@
    }
}

impl Rfc3164Hostname {
    #[verifier::type_invariant]
    spec fn inv(self) -> bool {
        valid_hostname(self.bytes@)
    }

    /// Accepts `bytes` if each is printable ASCII above the space; returns them in
    /// `Error::BadHostname` otherwise. A domain is not stripped here.
    pub fn new(bytes: Vec<u8>) -> (r: Result<Rfc3164Hostname, Error>)
        ensures
            r is Ok <==> valid_hostname(bytes@),
            r matches Ok(h) ==> h@ == bytes@,
            r matches Err(e) ==> e matches Error::BadHostname { name } && name@ == bytes@,
    {
        let mut i: usize = 0;
        while i < bytes.len()
            invariant
                0 <= i <= bytes@.len(),
                forall|j: int| 0 <= j < i ==> 32 < #[trigger] bytes@[j] < 128,
            decreases bytes@.len() - i,
        {
            if bytes[i] <= 32 || bytes[i] >= 128 {
                return Err(Error::BadHostname { name: bytes });
            }
            i = i + 1;
        }
        Ok(Rfc3164Hostname { bytes })
    }

    /// As `new`, on the bytes of `x`.
    pub fn try_from(x: String) -> (r: Result<Rfc3164Hostname, Error>)
        ensures
            r is Ok <==> valid_hostname(encode_utf8(x@)),
            r matches Ok(h) ==> h@ == encode_utf8(x@),
            r matches Err(e) ==> e is BadHostname,
    {
        Rfc3164Hostname::new(x.as_str().as_bytes_vec())
    }

    /// Drops the domain from a host name: everything from the first `.` on.
    pub fn strip_domain(bytes: Vec<u8>) -> (r: Vec<u8>)
        ensures
            r@ == strip_domain_of(bytes@),
            r@ == bytes@.subrange(0, r@.len() as int),
            forall|j: int| 0 <= j < r@.len() ==> r@[j] != 46,
            r@.len() == bytes@.len() || bytes@[r@.len() as int] == 46,
    {
        let mut bytes = bytes;
        let mut i: usize = 0;
        while i < bytes.len() && bytes[i] != 46
            invariant
                0 <= i <= bytes@.len(),
                forall|j: int| 0 <= j < i ==> bytes@[j] != 46,
            decreases bytes@.len() - i,
        {
            i = i + 1;
        }
        proof {
            lemma_dot_index(bytes@, i as int);
        }
        let ghost whole = bytes@;
        bytes.truncate(i);
        assert(bytes@ =~= whole.subrange(0, i as int));
        bytes
    }

    /// Settles the hostname by the fallback chain: `host` (the name the operating system
    /// reports) without its domain, else `ip` (a local IP address in text). Fails with
    /// `Error::BadIpAddress` when neither is usable.
    pub fn resolve(host: Option<Vec<u8>>, ip: Option<Vec<u8>>) -> (r: Result<
        Rfc3164Hostname,
        Error,
    >)
        ensures
            r is Ok <==> resolved_hostname(opt_bytes(host), opt_bytes(ip)) is Some,
            r matches Ok(h) ==> Some(h@) == resolved_hostname(opt_bytes(host), opt_bytes(ip)),
            r matches Err(e) ==> e is BadIpAddress,
    {
        let ghost gh = opt_bytes(host);
        let ghost gi = opt_bytes(ip);
        if let Some(h) = host {
            if let Ok(r) = Rfc3164Hostname::new(Rfc3164Hostname::strip_domain(h)) {
                return Ok(r);
            }
        }
        if let Some(a) = ip {
            if let Ok(r) = Rfc3164Hostname::new(a) {
                return Ok(r);
            }
        }
        Err(Error::BadIpAddress)
    }

    /// The hostname's bytes.
    pub fn as_bytes(&self) -> (r: &[u8])
        ensures
            r@ == self@,
            valid_hostname(r@),
    {
        proof {
            use_type_invariant(self);
        }
        self.bytes.as_slice()
    }
}

/// The byte is an ASCII letter or digit.
pub open spec fn is_alnum(b: u8) -> bool {
    (48 <= b <= 57) || (65 <= b <= 90) || (97 <= b <= 122)
}

/// A valid RFC 3164 tag: at most 32 ASCII letters and digits.
pub open spec fn valid_tag(b: Seq<u8>) -> bool {
    b.len() <= 32 && forall|i: int| 0 <= i < b.len() ==> is_alnum(#[trigger] b[i])
}

/// The letters and digits of `s`, in order.
pub open spec fn alnum_only(s: Seq<u8>) -> Seq<u8>
    decreases s.len(),
{
    if s.len() == 0 {
        seq![]
    } else {
        alnum_only(s.drop_last()) + (if is_alnum(s.last()) {
            seq![s.last()]
        } else {
            seq![]
        })
    }
}

/// The letters and digits of an executable's file name, if it is known.
pub open spec fn exe_tag_bytes(file_name: Option<Vec<u8>>) -> Seq<u8> {
    match file_name {
        Some(f) => alnum_only(f@),
        None => seq![],
    }
}

/// An RFC 3164 TAG: at most 32 ASCII letters and digits.
pub struct Tag {
    bytes: Vec<u8>,
}

impl View for Tag {
    type V = Seq<u8>;

    closed spec fn view(&self) -> Seq<u8> {
        self.bytes@
    }
}

impl Tag {
    #[verifier::type_invariant]
    spec fn inv(self) -> bool {
        valid_tag(self.bytes@)
    }

    /// Accepts `bytes` if they are at most 32 ASCII letters and digits; returns them in
    /// `Error::BadTag` otherwise.
    pub fn new(bytes: Vec<u8>) -> (r: Result<Tag, Error>)
        ensures
            r is Ok <==> valid_tag(bytes@),
            r matches Ok(t) ==> t@ == bytes@,
            r matches Err(e) ==> e matches Error::BadTag { name } && name@ == bytes@,
    {
        if bytes.len() > 32 {
            return Err(Error::BadTag { name: bytes });
        }
        let mut i: usize = 0;
        while i < bytes.len()
            invariant
                0 <= i <= bytes@.len(),
                forall|j: int| 0 <= j < i ==> is_alnum(#[trigger] bytes@[j]),
            decreases bytes@.len() - i,
        {
            let b = bytes[i];
            if !((48 <= b && b <= 57) || (65 <= b && b <= 90) || (97 <= b && b <= 122)) {
                return Err(Error::BadTag { name: bytes });
            }
            i = i + 1;
        }
        Ok(Tag { bytes })
    }

    /// As `new`, on the bytes of `x`.
    pub fn try_from(x: String) -> (r: Result<Tag, Error>)
        ensures
            r is Ok <==> valid_tag(encode_utf8(x@)),
            r matches Ok(t) ==> t@ == encode_utf8(x@),
            r matches Err(e) ==> e is BadTag,
    {
        Tag::new(x.as_str().as_bytes_vec())
    }

    /// Keeps the ASCII letters and digits of `x`, in order, and drops every other byte.
    pub fn strip_non_compliant(x: Vec<u8>) -> (r: Vec<u8>)
        ensures
            r@ == alnum_only(x@),
    {
        let mut out: Vec<u8> = Vec::new();
        let mut i: usize = 0;
        while i < x.len()
            invariant
                0 <= i <= x@.len(),
                out@ == alnum_only(x@.subrange(0, i as int)),
            decreases x@.len() - i,
        {
            let b = x[i];
            let ghost before = out@;
            if (48 <= b && b <= 57) || (65 <= b && b <= 90) || (97 <= b && b <= 122) {
                out.push(b);
            }
            proof {
                let sub = x@.subrange(0, i + 1);
                assert(sub.drop_last() =~= x@.subrange(0, i as int));
                assert(out@ =~= alnum_only(sub));
            }
            i = i + 1;
        }
        assert(x@.subrange(0, x@.len() as int) =~= x@);
        out
    }

    /// The tag for an executable whose file name is `file_name` (`None` where it cannot be
    /// determined): the name's letters and digits. Fails with `Error::NoTag` when the name is
    /// unknown or keeps no letter or digit, and with `Error::BadTag` when it keeps more than 32.
    pub fn from_exe_file_name(file_name: Option<Vec<u8>>) -> (r: Result<Tag, Error>)
        ensures
            file_name is None ==> r matches Err(Error::NoTag),
            file_name is Some && exe_tag_bytes(file_name).len() == 0 ==> r matches Err(
                Error::NoTag,
            ),
            file_name is Some && 0 < exe_tag_bytes(file_name).len() <= 32 ==> (r matches Ok(tag)
                && tag@ == exe_tag_bytes(file_name)),
            file_name is Some && exe_tag_bytes(file_name).len() > 32 ==> (r matches Err(
                Error::BadTag { name },
            ) && name@ == exe_tag_bytes(file_name)),
    {
        match file_name {
            None => Err(Error::NoTag),
            Some(f) => {
                let t = Tag::strip_non_compliant(f);
                if t.len() == 0 {
                    Err(Error::NoTag)
                } else {
                    proof {
                        lemma_alnum_only_is_alnum(f@);
                    }
                    Tag::new(t)
                }
            },
        }
    }

    /// The tag's bytes.
    pub fn as_bytes(&self) -> (r: &[u8])
        ensures
            r@ == self@,
            valid_tag(r@),
    {
        proof {
            use_type_invariant(self);
        }
        self.bytes.as_slice()
    }
}

proof fn lemma_alnum_only_is_alnum(s: Seq<u8>)
    ensures
        forall|i: int| 0 <= i < alnum_only(s).len() ==> is_alnum(#[trigger] alnum_only(s)[i]),
    decreases s.len(),
{
    if s.len() > 0 {
        let init = alnum_only(s.drop_last());
        lemma_alnum_only_is_alnum(s.drop_last());
        let tail = if is_alnum(s.last()) {
            seq![s.last()]
        } else {
            seq![]
        };
        assert(alnum_only(s) == init + tail);
        assert forall|i: int| 0 <= i < alnum_only(s).len() implies is_alnum(
            #[trigger] alnum_only(s)[i],
        ) by {
            if i < init.len() {
                assert(alnum_only(s)[i] == init[i]);
            } else {
                assert(alnum_only(s)[i] == tail[i - init.len()]);
            }
        }
    }
}

/// The lowercase hexadecimal digit for `d`, below sixteen.
pub open spec fn hex_char(d: nat) -> char {
    if d < 10 {
        ((48 + d) as u8) as char
    } else {
        ((87 + d) as u8) as char
    }
}

/// `n` in lowercase hexadecimal, without leading zeros.
pub open spec fn hex_digits(n: nat) -> Seq<char>
    decreases n,
{
    if n < 16 {
        seq![hex_char(n)]
    } else {
        hex_digits(n / 16).push(hex_char(n % 16))
    }
}

/// `s` with every character written as `\u{NNNN}`, its code point in hexadecimal.
pub open spec fn unicode_escaped(s: Seq<char>) -> Seq<char>
    decreases s.len(),
{
    if s.len() == 0 {
        seq![]
    } else {
        unicode_escaped(s.drop_last()) + seq!['\\', 'u', '{'] + hex_digits(s.last() as u32 as nat)
            + seq!['}']
    }
}

/// Relies on `str::escape_unicode`, which applies `char::escape_unicode` to every character:
/// each becomes `\u{`, its code point in lowercase hexadecimal without leading zeros, and `}`.
#[verifier::external_body]
fn escape_unicode(s: &str) -> (r: String)
    ensures
        r@ == unicode_escaped(s@),
{
    s.escape_unicode().to_string()
}

/// The configuration of an RFC 3164 formatter.
pub struct Rfc3164View {
    pub facility: Facility,
    pub hostname: Seq<u8>,
    pub tag: Seq<u8>,
    pub pid: Option<u32>,
    pub escape_unicode: bool,
}

/// The MSG text as sent: escaped when the formatter escapes, else its UTF-8 bytes.
pub open spec fn body(v: Rfc3164View, msg: Seq<char>) -> Seq<u8> {
    if v.escape_unicode {
        encode_utf8(unicode_escaped(msg))
    } else {
        encode_utf8(msg)
    }
}

/// The process id part that follows the tag: `[PID]: `, or nothing.
pub open spec fn pid_part(pid: Option<u32>) -> Seq<u8> {
    match pid {
        Some(p) => seq![91u8] + decimal(p as nat) + seq![93u8, 58u8, 32u8],
        None => seq![],
    }
}

/// The message up to the text: `<PRI>TIMESTAMP HOSTNAME TAG` and the process id part.
pub open spec fn header(v: Rfc3164View, level: Level, ts: Seq<u8>) -> Seq<u8> {
    seq![60u8] + decimal(spec_pri(v.facility, level) as nat) + seq![62u8] + ts + seq![32u8]
        + v.hostname + seq![32u8] + v.tag + pid_part(v.pid)
}

/// The message that a formatter configured as `v` produces for an event of level `level` and
/// text `msg`, at the instant that `ts` renders.
pub open spec fn message(v: Rfc3164View, level: Level, msg: Seq<char>, ts: Seq<u8>) -> Seq<u8> {
    header(v, level, ts) + body(v, msg)
}

/// A syslog formatter that produces RFC 3164 messages.
pub struct Rfc3164 {
    facility: Facility,
    hostname: Rfc3164Hostname,
    tag: Tag,
    add_pid: Option<u32>,
    escape_unicode: bool,
}

impl View for Rfc3164 {
    type V = Rfc3164View;

    closed spec fn view(&self) -> Rfc3164View {
        Rfc3164View {
            facility: self.facility,
            hostname: self.hostname@,
            tag: self.tag@,
            pid: self.add_pid,
            escape_unicode: self.escape_unicode,
        }
    }
}

impl Rfc3164 {
    /// A formatter for the process `pid` with the given hostname and tag, facility `LOG_USER`,
    /// and the message text sent as UTF-8.
    pub fn new(hostname: Rfc3164Hostname, tag: Tag, pid: u32) -> (r: Rfc3164)
        ensures
            r@ == (Rfc3164View {
                facility: Facility::LOG_USER,
                hostname: hostname@,
                tag: tag@,
                pid: Some(pid),
                escape_unicode: false,
            }),
    {
        Rfc3164 {
            facility: Facility::LOG_USER,
            hostname,
            tag,
            add_pid: Some(pid),
            escape_unicode: false,
        }
    }

    /// A builder that starts from `Rfc3164::new(hostname, tag, pid)`.
    pub fn builder(hostname: Rfc3164Hostname, tag: Tag, pid: u32) -> (r: Rfc3164Builder)
        ensures
            r@ == (Rfc3164View {
                facility: Facility::LOG_USER,
                hostname: hostname@,
                tag: tag@,
                pid: Some(pid),
                escape_unicode: false,
            }),
    {
        Rfc3164Builder { imp: Rfc3164::new(hostname, tag, pid) }
    }

    /// The message for an event of level `level` with text `msg`, stamped with the already
    /// rendered `timestamp`.
    pub fn format_at(&self, level: Level, msg: &str, timestamp: &str) -> (r: Vec<u8>)
        ensures
            r@ == message(self@, level, msg@, timestamp.spec_bytes()),
    {
        let mut buf: Vec<u8> = Vec::new();
        put_u8(&mut buf, 60);
        put_decimal(&mut buf, pri(self.facility, level) as u32);
        put_u8(&mut buf, 62);
        put_slice(&mut buf, timestamp.as_bytes());
        put_u8(&mut buf, 32);
        put_slice(&mut buf, self.hostname.as_bytes());
        put_u8(&mut buf, 32);
        put_slice(&mut buf, self.tag.as_bytes());
        if let Some(pid) = self.add_pid {
            put_u8(&mut buf, 91);
            put_decimal(&mut buf, pid);
            put_u8(&mut buf, 93);
            put_u8(&mut buf, 58);
            put_u8(&mut buf, 32);
        }
        let ghost head = buf@;
        assert(head =~= header(self@, level, timestamp.spec_bytes()));
        if self.escape_unicode {
            let escaped = escape_unicode(msg);
            put_slice(&mut buf, escaped.as_str().as_bytes());
        } else {
            put_slice(&mut buf, msg.as_bytes());
        }
        assert(buf@ =~= message(self@, level, msg@, timestamp.spec_bytes()));
        buf
    }

    /// The message for an event of level `level` with text `msg` at `timestamp`, or now where it
    /// is `None`, with the time in the machine's time zone. Never fails.
    pub fn format(&self, level: Level, msg: &str, timestamp: Option<Timestamp>) -> (r: Result<
        Vec<u8>,
        Error,
    >)
        ensures
            r is Ok,
            exists|ts: Seq<char>|
                is_bsd_time(ts) && r->Ok_0@ == #[trigger] message(
                    self@,
                    level,
                    msg@,
                    encode_utf8(ts),
                ),
    {
        let ts = match timestamp {
            Some(t) => bsd_local_time(&t),
            None => bsd_local_now(),
        };
        let out = self.format_at(level, msg, ts.as_str());
        Ok(out)
    }
}

/// Builds an `Rfc3164` field by field.
pub struct Rfc3164Builder {
    imp: Rfc3164,
}

impl View for Rfc3164Builder {
    type V = Rfc3164View;

    closed spec fn view(&self) -> Rfc3164View {
        self.imp@
    }
}

impl Rfc3164Builder {
    /// Sets the facility.
    pub fn facility(self, facility: Facility) -> (r: Self)
        ensures
            r@ == (Rfc3164View { facility, ..self@ }),
    {
        let mut b = self;
        b.imp.facility = facility;
        b
    }

    /// Sets the hostname.
    pub fn hostname(self, hostname: Rfc3164Hostname) -> (r: Self)
        ensures
            r@ == (Rfc3164View { hostname: hostname@, ..self@ }),
    {
        let mut b = self;
        b.imp.hostname = hostname;
        b
    }

    /// Sets the hostname from text; fails with `Error::BadHostname` where it is invalid.
    pub fn hostname_as_string(self, hostname: String) -> (r: Result<Self, Error>)
        ensures
            r is Ok <==> valid_hostname(encode_utf8(hostname@)),
            r matches Ok(b) ==> b@ == (Rfc3164View { hostname: encode_utf8(hostname@), ..self@ }),
            r matches Err(e) ==> e is BadHostname,
    {
        match Rfc3164Hostname::try_from(hostname) {
            Ok(h) => Ok(self.hostname(h)),
            Err(e) => Err(e),
        }
    }

    /// Sets the tag from text; fails with `Error::BadTag` where it is invalid.
    pub fn tag_as_string(self, tag: String) -> (r: Result<Self, Error>)
        ensures
            r is Ok <==> valid_tag(encode_utf8(tag@)),
            r matches Ok(b) ==> b@ == (Rfc3164View { tag: encode_utf8(tag@), ..self@ }),
            r matches Err(e) ==> e is BadTag,
    {
        match Tag::try_from(tag) {
            Ok(t) => {
                let mut b = self;
                b.imp.tag = t;
                Ok(b)
            },
            Err(e) => Err(e),
        }
    }

    /// Whether to send the message text with every character escaped as `\u{NNNN}`.
    pub fn escape_unicode(self, escape_unicode: bool) -> (r: Self)
        ensures
            r@ == (Rfc3164View { escape_unicode, ..self@ }),
    {
        let mut b = self;
        b.imp.escape_unicode = escape_unicode;
        b
    }

    /// The formatter.
    pub fn build(self) -> (r: Rfc3164)
        ensures
            r@ == self@,
    {
        self.imp
    }
}

/// Formatting is a function of its inputs: the same formatter, level, text and rendered
/// timestamp give the same bytes on every call.
pub proof fn lemma_format_deterministic(
    v: Rfc3164View,
    level: Level,
    msg: Seq<char>,
    ts: Seq<u8>,
    first: Seq<u8>,
    second: Seq<u8>,
)
    requires
        first == message(v, level, msg, ts),
        second == message(v, level, msg, ts),
    ensures
        first == second,
{
}

/// Unless the formatter escapes it, the message text comes through unchanged: the message ends
/// with its UTF-8 encoding, which is valid UTF-8 and decodes back to the text.
pub proof fn lemma_text_preserved(v: Rfc3164View, level: Level, msg: Seq<char>, ts: Seq<u8>)
    requires
        !v.escape_unicode,
    ensures
        ({
            let m = message(v, level, msg, ts);
            let text = encode_utf8(msg);
            &&& m.len() >= text.len()
            &&& m.subrange(m.len() - text.len(), m.len() as int) == text
            &&& valid_utf8(text)
            &&& decode_utf8(text) == msg
        }),
{
    let m = message(v, level, msg, ts);
    let text = encode_utf8(msg);
    assert(m =~= header(v, level, ts) + text);
    assert(m.subrange(m.len() - text.len(), m.len() as int) =~= text);
    vstd::utf8::encode_utf8_valid_utf8(msg);
    vstd::utf8::encode_utf8_decode_utf8(msg);
}

} // verus!
