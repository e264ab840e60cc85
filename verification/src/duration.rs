use vstd::prelude::*;

verus! {

/// A protobuf duration: signed seconds and nanoseconds.
#[derive(Debug, Clone, Copy, PartialEq, Eq, Structural)]
pub struct ProtoDuration {
    pub seconds: i64,
    pub nanos: i32,
}

/// A span of time: whole seconds and the nanoseconds below one second.
#[derive(Debug, Clone, Copy, PartialEq, Eq, Structural)]
pub struct StdDuration {
    pub secs: u64,
    pub nanos: u32,
}

impl StdDuration {
    pub open spec fn wf(self) -> bool {
        self.nanos < 1_000_000_000
    }
}

/// Integer division rounding toward zero, as Rust's `/` on signed integers.
pub open spec fn trunc_div(a: int, b: int) -> int {
    if a >= 0 {
        a / b
    } else {
        -((-a) / b)
    }
}

/// Remainder of [`trunc_div`], as Rust's `%` on signed integers.
pub open spec fn trunc_rem(a: int, b: int) -> int {
    a - trunc_div(a, b) * b
}

/// `prost_types::Duration::normalize`: nanoseconds brought below one second,
/// then given the sign of the seconds.
pub open spec fn normalize(seconds: int, nanos: int) -> (int, int) {
    let (s1, n1) = if nanos <= -1_000_000_000 || nanos >= 1_000_000_000 {
        (seconds + trunc_div(nanos, 1_000_000_000), trunc_rem(nanos, 1_000_000_000))
    } else {
        (seconds, nanos)
    };
    if s1 < 0 && n1 > 0 {
        (s1 + 1, n1 - 1_000_000_000)
    } else if s1 > 0 && n1 < 0 {
        (s1 - 1, n1 + 1_000_000_000)
    } else {
        (s1, n1)
    }
}

/// `std::time::Duration::try_from(prost_types::Duration)`: after normalising,
/// a duration with non-negative seconds converts (negative nanoseconds are then
/// read as `u32` and carried into seconds); a negative one is refused, holding
/// its magnitude.
pub open spec fn spec_duration_from_proto(d: ProtoDuration) -> Result<StdDuration, StdDuration> {
    let (s, n) = normalize(d.seconds as int, d.nanos as int);
    if s >= 0 {
        let nu: int = if n >= 0 {
            n
        } else {
            n + 0x1_0000_0000
        };
        Ok(StdDuration { secs: (s + nu / 1_000_000_000) as u64, nanos: (nu % 1_000_000_000) as u32 })
    } else {
        Err(StdDuration { secs: (-s) as u64, nanos: (-n) as u32 })
    }
}

/// Normalising and negating the duration stay within `i64`: carrying whole
/// seconds out of the nanoseconds does not overflow, and the normalised
/// seconds are not `i64::MIN` (whose negation overflows).
pub open spec fn proto_duration_in_range(d: ProtoDuration) -> bool {
    let carried = if d.nanos <= -1_000_000_000 || d.nanos >= 1_000_000_000 {
        d.seconds + trunc_div(d.nanos as int, 1_000_000_000)
    } else {
        d.seconds as int
    };
    &&& i64::MIN <= carried <= i64::MAX
    &&& normalize(d.seconds as int, d.nanos as int).0 != i64::MIN
}

/// Converts a protobuf duration to a span of time with
/// `std::time::Duration::try_from(prost_types::Duration)`. Claimed: the
/// result is [`spec_duration_from_proto`] of the duration.
#[verifier::external_body]
pub(crate) fn duration_from_proto(d: ProtoDuration) -> (r: Result<StdDuration, StdDuration>)
    requires
        proto_duration_in_range(d),
    ensures
        r == spec_duration_from_proto(d),
{
    let p = prost_types::Duration { seconds: d.seconds, nanos: d.nanos };
    match <std::time::Duration as std::convert::TryFrom<prost_types::Duration>>::try_from(p) {
        Ok(x) => Ok(StdDuration { secs: x.as_secs(), nanos: x.subsec_nanos() }),
        Err(x) => Err(StdDuration { secs: x.as_secs(), nanos: x.subsec_nanos() }),
    }
}

/// `prost_types::Duration::from(std::time::Duration)`: seconds saturate at
/// `i64::MAX`, nanoseconds are kept.
pub open spec fn spec_duration_to_proto(d: StdDuration) -> ProtoDuration {
    ProtoDuration {
        seconds: if d.secs > i64::MAX as u64 {
            i64::MAX
        } else {
            d.secs as i64
        },
        nanos: d.nanos as i32,
    }
}

/// Converts a span of time to a protobuf duration with
/// `prost_types::Duration::from`. Claimed: the result is
/// [`spec_duration_to_proto`] of the span.
#[verifier::external_body]
pub(crate) fn duration_to_proto(d: StdDuration) -> (r: ProtoDuration)
    requires
        d.wf(),
    ensures
        r == spec_duration_to_proto(d),
{
    let p = prost_types::Duration::from(std::time::Duration::new(d.secs, d.nanos));
    ProtoDuration { seconds: p.seconds, nanos: p.nanos }
}

/// A span of time converted to a protobuf duration converts back to the same
/// span, when its seconds fit in a signed 64-bit number.
pub proof fn lemma_duration_round_trip(d: StdDuration)
    requires
        d.wf(),
        d.secs <= i64::MAX,
    ensures
        spec_duration_from_proto(spec_duration_to_proto(d)) == Ok::<StdDuration, StdDuration>(d),
{
    let p = spec_duration_to_proto(d);
    assert(normalize(p.seconds as int, p.nanos as int) == (d.secs as int, d.nanos as int));
}

/// Whether a protobuf duration converts to a span of time without
/// overflowing `i64` (see [`proto_duration_in_range`]).
pub fn converts_without_overflow(d: ProtoDuration) -> (r: bool)
    ensures
        r == proto_duration_in_range(d),
{
    let q: i64 = if d.nanos >= 2_000_000_000i32 {
        2
    } else if d.nanos >= 1_000_000_000i32 {
        1
    } else if d.nanos <= -2_000_000_000i32 {
        -2
    } else if d.nanos <= -1_000_000_000i32 {
        -1
    } else {
        0
    };
    assert(q == (if d.nanos <= -1_000_000_000 || d.nanos >= 1_000_000_000 {
        trunc_div(d.nanos as int, 1_000_000_000)
    } else {
        0
    }));
    let carried = match d.seconds.checked_add(q) {
        Some(s) => s,
        None => return false,
    };
    let rem: i64 = (d.nanos as i64) - q * 1_000_000_000;
    assert(q != 0 ==> rem == trunc_rem(d.nanos as int, 1_000_000_000));
    let normalized: i64 = if carried < 0 && rem > 0 {
        carried + 1
    } else if carried > 0 && rem < 0 {
        carried - 1
    } else {
        carried
    };
    normalized != i64::MIN
}

} // verus!
