//! Syslog facilities and severity levels, and the PRI value they combine into.

use vstd::prelude::*;

verus! {

/// The twenty-four facilities that both RFCs define. Each facility's code is its number in
/// `<syslog.h>` multiplied by eight, ready to be combined with a severity.
#[allow(non_camel_case_types)]
#[derive(Copy, Clone, Debug, PartialEq, Eq, Structural)]
pub enum Facility {
    /// kernel messages
    LOG_KERN,
    /// random user-level messages
    LOG_USER,
    /// mail system
    LOG_MAIL,
    /// system daemons
    LOG_DAEMON,
    /// security/authorization messages
    LOG_AUTH,
    /// messages generated internally by syslogd
    LOG_SYSLOG,
    /// line printer subsystem
    LOG_LPR,
    /// network news subsystem
    LOG_NEWS,
    /// UUCP subsystem
    LOG_UUCP,
    /// clock daemon
    LOG_CRON,
    /// security/authorization messages (private)
    LOG_AUTHPRIV,
    /// ftp daemon
    LOG_FTP,
    /// NTP subsystem
    LOG_NTP,
    /// log audit
    LOG_AUDIT,
    /// log alert
    LOG_ALERT,
    /// clock daemon (alternate)
    LOG_CLOCK,
    /// reserved for local use
    LOG_LOCAL0,
    /// reserved for local use
    LOG_LOCAL1,
    /// reserved for local use
    LOG_LOCAL2,
    /// reserved for local use
    LOG_LOCAL3,
    /// reserved for local use
    LOG_LOCAL4,
    /// reserved for local use
    LOG_LOCAL5,
    /// reserved for local use
    LOG_LOCAL6,
    /// reserved for local use
    LOG_LOCAL7,
}

impl Facility {
    /// The facility's number in `<syslog.h>`, 0 through 23.
    pub open spec fn number(self) -> u8 {
        match self {
            Facility::LOG_KERN => 0,
            Facility::LOG_USER => 1,
            Facility::LOG_MAIL => 2,
            Facility::LOG_DAEMON => 3,
            Facility::LOG_AUTH => 4,
            Facility::LOG_SYSLOG => 5,
            Facility::LOG_LPR => 6,
            Facility::LOG_NEWS => 7,
            Facility::LOG_UUCP => 8,
            Facility::LOG_CRON => 9,
            Facility::LOG_AUTHPRIV => 10,
            Facility::LOG_FTP => 11,
            Facility::LOG_NTP => 12,
            Facility::LOG_AUDIT => 13,
            Facility::LOG_ALERT => 14,
            Facility::LOG_CLOCK => 15,
            Facility::LOG_LOCAL0 => 16,
            Facility::LOG_LOCAL1 => 17,
            Facility::LOG_LOCAL2 => 18,
            Facility::LOG_LOCAL3 => 19,
            Facility::LOG_LOCAL4 => 20,
            Facility::LOG_LOCAL5 => 21,
            Facility::LOG_LOCAL6 => 22,
            Facility::LOG_LOCAL7 => 23,
        }
    }

    /// The facility's code: its number times eight.
    pub open spec fn spec_code(self) -> u8 {
        (self.number() * 8) as u8
    }

    /// The facility's name as `<syslog.h>` spells it.
    pub open spec fn name(self) -> Seq<char> {
        match self {
            Facility::LOG_KERN => "LOG_KERN"@,
            Facility::LOG_USER => "LOG_USER"@,
            Facility::LOG_MAIL => "LOG_MAIL"@,
            Facility::LOG_DAEMON => "LOG_DAEMON"@,
            Facility::LOG_AUTH => "LOG_AUTH"@,
            Facility::LOG_SYSLOG => "LOG_SYSLOG"@,
            Facility::LOG_LPR => "LOG_LPR"@,
            Facility::LOG_NEWS => "LOG_NEWS"@,
            Facility::LOG_UUCP => "LOG_UUCP"@,
            Facility::LOG_CRON => "LOG_CRON"@,
            Facility::LOG_AUTHPRIV => "LOG_AUTHPRIV"@,
            Facility::LOG_FTP => "LOG_FTP"@,
            Facility::LOG_NTP => "LOG_NTP"@,
            Facility::LOG_AUDIT => "LOG_AUDIT"@,
            Facility::LOG_ALERT => "LOG_ALERT"@,
            Facility::LOG_CLOCK => "LOG_CLOCK"@,
            Facility::LOG_LOCAL0 => "LOG_LOCAL0"@,
            Facility::LOG_LOCAL1 => "LOG_LOCAL1"@,
            Facility::LOG_LOCAL2 => "LOG_LOCAL2"@,
            Facility::LOG_LOCAL3 => "LOG_LOCAL3"@,
            Facility::LOG_LOCAL4 => "LOG_LOCAL4"@,
            Facility::LOG_LOCAL5 => "LOG_LOCAL5"@,
            Facility::LOG_LOCAL6 => "LOG_LOCAL6"@,
            Facility::LOG_LOCAL7 => "LOG_LOCAL7"@,
        }
    }

    /// The facility's code, a multiple of eight from 0 to 184.
    pub fn code(&self) -> (r: u8)
        ensures
            r == self.spec_code(),
            r % 8 == 0,
            r <= 184,
    {
        match self {
            Facility::LOG_KERN => 0,
            Facility::LOG_USER => 8,
            Facility::LOG_MAIL => 16,
            Facility::LOG_DAEMON => 24,
            Facility::LOG_AUTH => 32,
            Facility::LOG_SYSLOG => 40,
            Facility::LOG_LPR => 48,
            Facility::LOG_NEWS => 56,
            Facility::LOG_UUCP => 64,
            Facility::LOG_CRON => 72,
            Facility::LOG_AUTHPRIV => 80,
            Facility::LOG_FTP => 88,
            Facility::LOG_NTP => 96,
            Facility::LOG_AUDIT => 104,
            Facility::LOG_ALERT => 112,
            Facility::LOG_CLOCK => 120,
            Facility::LOG_LOCAL0 => 128,
            Facility::LOG_LOCAL1 => 136,
            Facility::LOG_LOCAL2 => 144,
            Facility::LOG_LOCAL3 => 152,
            Facility::LOG_LOCAL4 => 160,
            Facility::LOG_LOCAL5 => 168,
            Facility::LOG_LOCAL6 => 176,
            Facility::LOG_LOCAL7 => 184,
        }
    }

    /// The facility's name, such as `"LOG_FTP"`.
    pub fn to_string(&self) -> (r: String)
        ensures
            r@ == self.name(),
    {
        let s: &str = match self {
            Facility::LOG_KERN => "LOG_KERN",
            Facility::LOG_USER => "LOG_USER",
            Facility::LOG_MAIL => "LOG_MAIL",
            Facility::LOG_DAEMON => "LOG_DAEMON",
            Facility::LOG_AUTH => "LOG_AUTH",
            Facility::LOG_SYSLOG => "LOG_SYSLOG",
            Facility::LOG_LPR => "LOG_LPR",
            Facility::LOG_NEWS => "LOG_NEWS",
            Facility::LOG_UUCP => "LOG_UUCP",
            Facility::LOG_CRON => "LOG_CRON",
            Facility::LOG_AUTHPRIV => "LOG_AUTHPRIV",
            Facility::LOG_FTP => "LOG_FTP",
            Facility::LOG_NTP => "LOG_NTP",
            Facility::LOG_AUDIT => "LOG_AUDIT",
            Facility::LOG_ALERT => "LOG_ALERT",
            Facility::LOG_CLOCK => "LOG_CLOCK",
            Facility::LOG_LOCAL0 => "LOG_LOCAL0",
            Facility::LOG_LOCAL1 => "LOG_LOCAL1",
            Facility::LOG_LOCAL2 => "LOG_LOCAL2",
            Facility::LOG_LOCAL3 => "LOG_LOCAL3",
            Facility::LOG_LOCAL4 => "LOG_LOCAL4",
            Facility::LOG_LOCAL5 => "LOG_LOCAL5",
            Facility::LOG_LOCAL6 => "LOG_LOCAL6",
            Facility::LOG_LOCAL7 => "LOG_LOCAL7",
        };
        String::from_str(s)
    }
}

impl Default for Facility {
    /// The default facility is `LOG_USER`.
    fn default() -> (r: Facility)
        ensures
            r == Facility::LOG_USER,
    {
        Facility::LOG_USER
    }
}

/// The eight severity levels that both RFCs define, most severe first. A level's code is its
/// position, 0 through 7.
#[allow(non_camel_case_types)]
#[derive(Copy, Clone, Debug, PartialEq, Eq, Structural)]
pub enum Level {
    /// system is unusable
    LOG_EMERG,
    /// action must be taken immediately
    LOG_ALERT,
    /// critical conditions
    LOG_CRIT,
    /// error conditions
    LOG_ERR,
    /// warning conditions
    LOG_WARNING,
    /// normal, but significant condition
    LOG_NOTICE,
    /// informational message
    LOG_INFO,
    /// debug-level message
    LOG_DEBUG,
}

impl Level {
    /// The level's code, 0 through 7.
    pub open spec fn spec_code(self) -> u8 {
        match self {
            Level::LOG_EMERG => 0,
            Level::LOG_ALERT => 1,
            Level::LOG_CRIT => 2,
            Level::LOG_ERR => 3,
            Level::LOG_WARNING => 4,
            Level::LOG_NOTICE => 5,
            Level::LOG_INFO => 6,
            Level::LOG_DEBUG => 7,
        }
    }

    /// The level's name as `<syslog.h>` spells it.
    pub open spec fn name(self) -> Seq<char> {
        match self {
            Level::LOG_EMERG => "LOG_EMERG"@,
            Level::LOG_ALERT => "LOG_ALERT"@,
            Level::LOG_CRIT => "LOG_CRIT"@,
            Level::LOG_ERR => "LOG_ERR"@,
            Level::LOG_WARNING => "LOG_WARNING"@,
            Level::LOG_NOTICE => "LOG_NOTICE"@,
            Level::LOG_INFO => "LOG_INFO"@,
            Level::LOG_DEBUG => "LOG_DEBUG"@,
        }
    }

    /// The level's code, 0 through 7.
    pub fn code(&self) -> (r: u8)
        ensures
            r == self.spec_code(),
            r <= 7,
    {
        match self {
            Level::LOG_EMERG => 0,
            Level::LOG_ALERT => 1,
            Level::LOG_CRIT => 2,
            Level::LOG_ERR => 3,
            Level::LOG_WARNING => 4,
            Level::LOG_NOTICE => 5,
            Level::LOG_INFO => 6,
            Level::LOG_DEBUG => 7,
        }
    }

    /// The level's name, such as `"LOG_INFO"`.
    pub fn to_string(&self) -> (r: String)
        ensures
            r@ == self.name(),
    {
        let s: &str = match self {
            Level::LOG_EMERG => "LOG_EMERG",
            Level::LOG_ALERT => "LOG_ALERT",
            Level::LOG_CRIT => "LOG_CRIT",
            Level::LOG_ERR => "LOG_ERR",
            Level::LOG_WARNING => "LOG_WARNING",
            Level::LOG_NOTICE => "LOG_NOTICE",
            Level::LOG_INFO => "LOG_INFO",
            Level::LOG_DEBUG => "LOG_DEBUG",
        };
        String::from_str(s)
    }
}

/// The PRI value of a message: the facility's code and the level's code combined by bitwise or.
pub open spec fn spec_pri(facility: Facility, level: Level) -> u8 {
    facility.spec_code() | level.spec_code()
}

/// Combines a facility and a level into the PRI value that opens every syslog message.
///
/// The two codes never share a bit, so the PRI is also their sum, and it never exceeds 191.
pub fn pri(facility: Facility, level: Level) -> (r: u8)
    ensures
        r == spec_pri(facility, level),
        r as int == facility.spec_code() as int + level.spec_code() as int,
        r <= 191,
{
    let f = facility.code();
    let l = level.code();
    assert(f | l == f + l && f + l <= 191) by (bit_vector)
        requires
            f % 8 == 0,
            f <= 184,
            l <= 7,
    ;
    f | l
}

} // verus!
