pub mod application;
pub mod auto_moderation;
pub mod channel;
pub mod command;
pub mod embed;
pub mod emoji;
pub mod gateway;
pub mod integration;
pub mod invite;
pub mod message;
pub mod presence;
pub mod role;
pub mod scheduled_event;
pub mod user;
pub mod voice;

use vstd::prelude::*;
use vstd::string::*;

verus! {

/// The instant from which identifiers count their creation time, in
/// milliseconds after the Unix epoch.
pub const EPOCH_MILLIS: u64 = 1_420_070_400_000;

/// A 64-bit identifier; its high 42 bits hold the milliseconds between the
/// platform epoch and the resource's creation.
#[derive(Clone, Copy, Debug, PartialEq, Eq, Structural)]
pub struct Id(pub u64);

/// An instant, as whole seconds since the Unix epoch.
#[derive(Clone, Copy, Debug, PartialEq, Eq, Structural)]
pub struct Timestamp {
    pub unix_seconds: i64,
}

impl Timestamp {
    /// The instant `seconds` after the Unix epoch.
    pub fn from_unix_timestamp(seconds: i64) -> (r: Timestamp)
        ensures
            r.unix_seconds == seconds,
    {
        Timestamp { unix_seconds: seconds }
    }
}

/// When an identifier was created, in milliseconds since the Unix epoch.
pub open spec fn creation_millis(id: u64) -> int {
    (id >> 22u64) as int + EPOCH_MILLIS as int
}

impl Id {
    /// The identifier as a decimal numeral, as it stands in endpoint paths.
    pub fn to_decimal(self) -> (r: String)
        ensures
            r@ == decimal(self.0 as nat),
    {
        let mut out = String::new();
        push_decimal(&mut out, self.0);
        out
    }

    /// The instant the identifier was created, to the second.
    pub fn timestamp(self) -> (r: Timestamp)
        ensures
            r.unix_seconds == creation_millis(self.0) / 1000,
    {
        let raw = self.0;
        let high = raw >> 22u64;
        assert(high <= 0x3ff_ffff_ffffu64) by (bit_vector)
            requires
                high == raw >> 22u64,
        ;
        let millis = high + EPOCH_MILLIS;
        Timestamp { unix_seconds: (millis / 1000) as i64 }
    }
}

/// The decimal digit `d` (for `d < 10`).
pub open spec fn digit_char(d: nat) -> char {
    if d == 0 {
        '0'
    } else if d == 1 {
        '1'
    } else if d == 2 {
        '2'
    } else if d == 3 {
        '3'
    } else if d == 4 {
        '4'
    } else if d == 5 {
        '5'
    } else if d == 6 {
        '6'
    } else if d == 7 {
        '7'
    } else if d == 8 {
        '8'
    } else {
        '9'
    }
}

/// The decimal numeral of `n`, without leading zeros.
pub open spec fn decimal(n: nat) -> Seq<char>
    decreases n,
{
    if n < 10 {
        seq![digit_char(n)]
    } else {
        decimal(n / 10).push(digit_char(n % 10))
    }
}

fn digit_str(d: u64) -> (r: &'static str)
    requires
        d < 10,
    ensures
        r@ == seq![digit_char(d as nat)],
{
    if d == 0 {
        proof {
            reveal_strlit("0");
        }
        "0"
    } else if d == 1 {
        proof {
            reveal_strlit("1");
        }
        "1"
    } else if d == 2 {
        proof {
            reveal_strlit("2");
        }
        "2"
    } else if d == 3 {
        proof {
            reveal_strlit("3");
        }
        "3"
    } else if d == 4 {
        proof {
            reveal_strlit("4");
        }
        "4"
    } else if d == 5 {
        proof {
            reveal_strlit("5");
        }
        "5"
    } else if d == 6 {
        proof {
            reveal_strlit("6");
        }
        "6"
    } else if d == 7 {
        proof {
            reveal_strlit("7");
        }
        "7"
    } else if d == 8 {
        proof {
            reveal_strlit("8");
        }
        "8"
    } else {
        proof {
            reveal_strlit("9");
        }
        "9"
    }
}

/// Appends the decimal numeral of `n` to `out`.
pub fn push_decimal(out: &mut String, n: u64)
    ensures
        final(out)@ == old(out)@ + decimal(n as nat),
    decreases n,
{
    if n >= 10 {
        push_decimal(out, n / 10);
    }
    out.append(digit_str(n % 10));
}

} // verus!
