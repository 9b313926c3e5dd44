//! Pairing a phone: the six-digit code shown on the PC, one token per device, individually
//! revocable, and the address the phone is told to reach.
use rand::Rng;
use vstd::prelude::*;

use crate::text::{
    char_from_ascii, decimal, digit_char, is_digit, all_digits, zero_padded, zero_padded_exec,
};

verus! {

// ---------------------------------------------------------------------------------------------
// Chance
// ---------------------------------------------------------------------------------------------

/// `rand::thread_rng().gen_range(0..n)`. Claimed: the number lies in `0..n` (the range is not
/// empty, which is the one case where `gen_range` panics). Which number comes is chance.
#[verifier::external_body]
fn random_below(n: u32) -> (r: u32)
    requires
        n > 0,
    ensures
        r < n,
{
    rand::thread_rng().gen_range(0..n)
}

/// `rand::thread_rng().gen::<u8>()`: one random byte. Nothing is claimed of its value.
#[verifier::external_body]
fn random_byte() -> (r: u8) {
    rand::thread_rng().gen::<u8>()
}

/// `n` random bytes.
fn random_bytes(n: usize) -> (r: Vec<u8>)
    ensures
        r.len() == n,
{
    let mut r: Vec<u8> = Vec::new();
    let mut i: usize = 0;
    while i < n
        invariant
            i <= n,
            r.len() == i,
        decreases n - i,
    {
        r.push(random_byte());
        i = i + 1;
    }
    r
}

// ---------------------------------------------------------------------------------------------
// Hex and decimal renderings
// ---------------------------------------------------------------------------------------------

/// The lower-case hex digit for `d < 16`.
pub open spec fn hex_digit(d: nat) -> char {
    if d < 10 {
        digit_char(d)
    } else {
        ((d + 87) as u32) as char
    }
}

/// A byte as two lower-case hex digits (`{:02x}`).
pub open spec fn hex_byte(b: u8) -> Seq<char> {
    seq![hex_digit((b / 16) as nat), hex_digit((b % 16) as nat)]
}

/// Bytes as lower-case hex, two digits each, in order.
pub open spec fn hex(bytes: Seq<u8>) -> Seq<char>
    decreases bytes.len(),
{
    if bytes.len() == 0 {
        Seq::empty()
    } else {
        hex(bytes.drop_last()) + hex_byte(bytes.last())
    }
}

/// A lower-case hex digit.
pub open spec fn is_hex_digit(c: char) -> bool {
    is_digit(c) || ('a' <= c && c <= 'f')
}

/// Hex is two characters a byte, each a lower-case hex digit.
pub proof fn lemma_hex(bytes: Seq<u8>)
    ensures
        hex(bytes).len() == 2 * bytes.len(),
        forall|i: int| 0 <= i < hex(bytes).len() ==> is_hex_digit(#[trigger] hex(bytes)[i]),
    decreases bytes.len(),
{
    if bytes.len() > 0 {
        lemma_hex(bytes.drop_last());
        let b = bytes.last();
        assert(b / 16 < 16 && b % 16 < 16);
    }
}

fn hex_digit_exec(d: u8) -> (c: char)
    requires
        d < 16,
    ensures
        c == hex_digit(d as nat),
{
    if d < 10 {
        char_from_ascii(d as u32 + 48)
    } else {
        char_from_ascii(d as u32 + 87)
    }
}

/// The bytes as lower-case hex.
pub fn hex_string(bytes: &[u8]) -> (r: String)
    ensures
        r@ == hex(bytes@),
{
    let mut cs: Vec<char> = Vec::new();
    let mut i: usize = 0;
    while i < bytes.len()
        invariant
            i <= bytes.len(),
            cs@ == hex(bytes@.subrange(0, i as int)),
        decreases bytes.len() - i,
    {
        let b = bytes[i];
        cs.push(hex_digit_exec(b / 16));
        cs.push(hex_digit_exec(b % 16));
        proof {
            let next = bytes@.subrange(0, i + 1);
            assert(next.drop_last() =~= bytes@.subrange(0, i as int));
            assert(cs@ =~= hex(next));
        }
        i = i + 1;
    }
    assert(bytes@.subrange(0, bytes@.len() as int) =~= bytes@);
    crate::text::string_of(cs.as_slice())
}

/// Ten to the `k`.
pub open spec fn pow10(k: nat) -> nat
    decreases k,
{
    if k == 0 {
        1
    } else {
        10 * pow10((k - 1) as nat)
    }
}

/// A number below `10^k` has at most `k` digits.
pub proof fn lemma_decimal_len(n: nat, k: nat)
    requires
        k >= 1,
        n < pow10(k),
    ensures
        decimal(n).len() <= k,
    decreases n,
{
    if n >= 10 {
        if k == 1 {
            assert(pow10(1) == 10) by {
                reveal_with_fuel(pow10, 2);
            }
        } else {
            let p = pow10((k - 1) as nat);
            assert(n / 10 < p) by (nonlinear_arith)
                requires
                    n < 10 * p,
            ;
            lemma_decimal_len(n / 10, (k - 1) as nat);
        }
    }
}

/// What a pairing code is: exactly six ASCII digits.
pub open spec fn is_code(s: Seq<char>) -> bool {
    s.len() == 6 && all_digits(s)
}

/// A number below a million, zero-padded to six places, is a pairing code.
pub proof fn lemma_code(n: nat)
    requires
        n < 1000000,
    ensures
        is_code(zero_padded(n, 6)),
{
    assert(pow10(6) == 1000000) by {
        reveal_with_fuel(pow10, 7);
    }
    lemma_decimal_len(n, 6);
    crate::text::lemma_decimal_digits(n);
    let d = decimal(n);
    let z = zero_padded(n, 6);
    if d.len() < 6 {
        let pad = Seq::new((6 - d.len()) as nat, |i: int| '0');
        assert(z == pad + d);
        assert forall|i: int| 0 <= i < z.len() implies is_digit(#[trigger] z[i]) by {
            if i < pad.len() {
                assert(z[i] == '0');
            } else {
                assert(z[i] == d[i - pad.len()]);
            }
        }
    }
}

/// A fresh six-digit code, uniformly drawn (`{:06}` of a number below a million).
pub fn new_code() -> (r: String)
    ensures
        exists|n: nat| n < 1000000 && r@ == zero_padded(n, 6),
        is_code(r@),
{
    let n = random_below(1000000);
    let cs = zero_padded_exec(n as u64, 6);
    proof {
        lemma_code(n as nat);
    }
    crate::text::string_of(cs.as_slice())
}

/// A fresh per-device token: 16 random bytes as 32 lower-case hex characters.
pub fn new_token() -> (r: String)
    ensures
        exists|b: Seq<u8>| b.len() == 16 && r@ == hex(b),
        r@.len() == 32,
{
    let bytes = random_bytes(16);
    proof {
        lemma_hex(bytes@);
    }
    hex_string(bytes.as_slice())
}

/// A short, stable per-install id for discovery: 4 random bytes as 8 lower-case hex characters.
pub fn new_host_id() -> (r: String)
    ensures
        exists|b: Seq<u8>| b.len() == 4 && r@ == hex(b),
        r@.len() == 8,
{
    let bytes = random_bytes(4);
    proof {
        lemma_hex(bytes@);
    }
    hex_string(bytes.as_slice())
}


// ---------------------------------------------------------------------------------------------
// Devices and the attempt in flight
// ---------------------------------------------------------------------------------------------

/// How long a code stays valid, in seconds.
pub const CODE_TTL_SECS: u64 = 120;
/// Wrong guesses after which new attempts are locked out.
pub const MAX_FAILED_CODES: u32 = 3;
/// How long a lockout lasts, in seconds.
pub const LOCKOUT_SECS: u64 = 300;

/// A phone paired with a code. Each device has its own token, individually revocable.
pub struct Device {
    pub device_id: String,
    pub name: String,
    pub platform: String,
    pub token: String,
    pub last_seen: u64,
}

/// A device by its contents.
pub struct DeviceView {
    pub device_id: Seq<char>,
    pub name: Seq<char>,
    pub platform: Seq<char>,
    pub token: Seq<char>,
    pub last_seen: u64,
}

impl View for Device {
    type V = DeviceView;

    open spec fn view(&self) -> DeviceView {
        DeviceView {
            device_id: self.device_id@,
            name: self.name@,
            platform: self.platform@,
            token: self.token@,
            last_seen: self.last_seen,
        }
    }
}

impl Clone for Device {
    fn clone(&self) -> (r: Self)
        ensures
            r@ == self@,
    {
        Device {
            device_id: self.device_id.clone(),
            name: self.name.clone(),
            platform: self.platform.clone(),
            token: self.token.clone(),
            last_seen: self.last_seen,
        }
    }
}

/// A list of devices by their contents.
pub open spec fn device_views(s: Seq<Device>) -> Seq<DeviceView> {
    s.map_values(|d: Device| d@)
}

/// One pairing attempt in flight: the code shown on the PC, waiting for the phone to type it.
pub struct PendingPairing {
    pub code: String,
    pub expires_at: u64,
    pub device_name: String,
    pub platform: String,
    pub failed_attempts: u32,
    pub locked_until: Option<u64>,
}

/// An attempt by its contents.
pub struct PendingView {
    pub code: Seq<char>,
    pub expires_at: u64,
    pub device_name: Seq<char>,
    pub platform: Seq<char>,
    pub failed_attempts: u32,
    pub locked_until: Option<u64>,
}

impl View for PendingPairing {
    type V = PendingView;

    open spec fn view(&self) -> PendingView {
        PendingView {
            code: self.code@,
            expires_at: self.expires_at,
            device_name: self.device_name@,
            platform: self.platform@,
            failed_attempts: self.failed_attempts,
            locked_until: self.locked_until,
        }
    }
}

/// The slot holding at most one attempt, by its contents.
pub open spec fn slot_view(slot: Option<PendingPairing>) -> Option<PendingView> {
    match slot {
        Some(p) => Some(p@),
        None => None,
    }
}

/// The attempt is still locked out at `now`.
pub open spec fn locked(p: PendingView, now: u64) -> bool {
    p.locked_until matches Some(until) && now < until
}

/// An error result by its message.
pub open spec fn err_is<T>(r: Result<T, &'static str>, msg: Seq<char>) -> bool {
    r matches Err(e) && e@ == msg
}

/// A phone asked to pair. Refused while the host has pairing closed, or while a previous
/// attempt is locked out; otherwise a fresh code replaces whatever attempt was pending, and the
/// code and its lifetime are returned for the PC to show.
pub fn start(
    slot: &mut Option<PendingPairing>,
    pairing_open: bool,
    device_name: &str,
    platform: &str,
    now: u64,
) -> (r: Result<(String, u64), &'static str>)
    requires
        now <= u64::MAX - CODE_TTL_SECS,
    ensures
        !pairing_open ==> err_is(r, "pairing_closed"@) && slot_view(*final(slot)) == slot_view(
            *old(slot),
        ),
        pairing_open && (*old(slot) matches Some(p) && locked(p@, now)) ==> err_is(
            r,
            "rate_limited"@,
        ) && slot_view(*final(slot)) == slot_view(*old(slot)),
        pairing_open && !(*old(slot) matches Some(p) && locked(p@, now)) ==> (r matches Ok(
            (code, ttl),
        ) && ttl == CODE_TTL_SECS && is_code(code@) && (exists|n: nat|
            n < 1000000 && code@ == zero_padded(n, 6)) && slot_view(*final(slot)) == Some(
            PendingView {
                code: code@,
                expires_at: (now + CODE_TTL_SECS) as u64,
                device_name: device_name@,
                platform: platform@,
                failed_attempts: 0,
                locked_until: None,
            },
        )),
{
    if !pairing_open {
        return Err("pairing_closed");
    }
    if let Some(p) = slot {
        if let Some(until) = p.locked_until {
            if now < until {
                return Err("rate_limited");
            }
        }
    }
    let code = new_code();
    let shown = code.clone();
    *slot = Some(
        PendingPairing {
            code,
            expires_at: now + CODE_TTL_SECS,
            device_name: crate::text::own(device_name),
            platform: crate::text::own(platform),
            failed_attempts: 0,
            locked_until: None,
        },
    );
    Ok((shown, CODE_TTL_SECS))
}

/// The devices left after dropping every entry with this name and platform: re-pairing the same
/// phone replaces its old entry instead of piling up tokens.
pub open spec fn others(devs: Seq<DeviceView>, name: Seq<char>, platform: Seq<char>) -> Seq<
    DeviceView,
>
    decreases devs.len(),
{
    if devs.len() == 0 {
        Seq::empty()
    } else {
        let rest = others(devs.drop_last(), name, platform);
        let d = devs.last();
        if d.name != name || d.platform != platform {
            rest.push(d)
        } else {
            rest
        }
    }
}

/// A device id: the first sixteen characters of a fresh token.
pub open spec fn is_device_id(s: Seq<char>) -> bool {
    exists|b: Seq<u8>| b.len() == 16 && s == hex(b).take(16)
}

/// A token: 16 bytes as lower-case hex.
pub open spec fn is_token(s: Seq<char>) -> bool {
    exists|b: Seq<u8>| b.len() == 16 && s == hex(b)
}

fn keep_others(devices: &Vec<Device>, name: &str, platform: &str) -> (r: Vec<Device>)
    ensures
        device_views(r@) == others(device_views(devices@), name@, platform@),
{
    let mut r: Vec<Device> = Vec::new();
    let mut i: usize = 0;
    while i < devices.len()
        invariant
            i <= devices.len(),
            device_views(r@) == others(device_views(devices@.subrange(0, i as int)), name@, platform@),
        decreases devices.len() - i,
    {
        let d = &devices[i];
        proof {
            let next = device_views(devices@.subrange(0, i + 1));
            assert(next.drop_last() =~= device_views(devices@.subrange(0, i as int)));
            assert(next.last() == d@);
        }
        if !crate::text::same(d.name.as_str(), name) || !crate::text::same(
            d.platform.as_str(),
            platform,
        ) {
            let ghost before = device_views(r@);
            r.push(d.clone());
            assert(device_views(r@) =~= before.push(d@));
        }
        i = i + 1;
    }
    assert(devices@.subrange(0, devices@.len() as int) =~= devices@);
    r
}

/// The error `confirm` answers, or `None` when the code pairs the phone.
pub open spec fn confirm_error(slot: Option<PendingView>, code: Seq<char>, now: u64) -> Option<
    Seq<char>,
> {
    match slot {
        None => Some("bad_code"@),
        Some(p) => if locked(p, now) {
            Some("rate_limited"@)
        } else if now > p.expires_at || code != p.code {
            Some("bad_code"@)
        } else {
            None
        },
    }
}

/// The attempt left pending after `confirm`: unchanged while locked, gone once spent or expired,
/// and one more failure (locked out at the third; the count stops at `u32::MAX`) after a wrong
/// guess.
pub open spec fn after_confirm(slot: Option<PendingView>, code: Seq<char>, now: u64) -> Option<
    PendingView,
> {
    match slot {
        None => None,
        Some(p) => if locked(p, now) {
            Some(p)
        } else if now > p.expires_at {
            None
        } else if code != p.code {
            Some(
                PendingView {
                    failed_attempts: if p.failed_attempts == u32::MAX {
                        u32::MAX
                    } else {
                        (p.failed_attempts + 1) as u32
                    },
                    locked_until: if p.failed_attempts + 1 >= MAX_FAILED_CODES {
                        Some((now + LOCKOUT_SECS) as u64)
                    } else {
                        p.locked_until
                    },
                    ..p
                },
            )
        } else {
            None
        },
    }
}

/// The phone typed a code back. On a match with a live code, a fresh device with its own token
/// replaces any earlier entry for the same phone, and the attempt is spent. A wrong guess counts;
/// the third locks new attempts out for five minutes. An expired code clears the attempt.
pub fn confirm(
    slot: &mut Option<PendingPairing>,
    devices: &mut Vec<Device>,
    code: &str,
    now: u64,
) -> (r: Result<Device, &'static str>)
    requires
        now <= u64::MAX - LOCKOUT_SECS,
    ensures
        slot_view(*final(slot)) == after_confirm(slot_view(*old(slot)), code@, now),
        match confirm_error(slot_view(*old(slot)), code@, now) {
            Some(e) => err_is(r, e) && device_views(final(devices)@) == device_views(old(devices)@),
            None => *old(slot) matches Some(p) && r matches Ok(d) && d@.name == p@.device_name
                && d@.platform == p@.platform && d@.last_seen == now && is_token(d@.token)
                && is_device_id(d@.device_id) && device_views(final(devices)@) == others(
                device_views(old(devices)@),
                p@.device_name,
                p@.platform,
            ).push(d@),
        },
{
    let p = match slot {
        Some(p) => p,
        None => {
            return Err("bad_code");
        },
    };
    if let Some(until) = p.locked_until {
        if now < until {
            return Err("rate_limited");
        }
    }
    if now > p.expires_at {
        *slot = None;
        return Err("bad_code");
    }
    if !crate::text::same(p.code.as_str(), code) {
        if p.failed_attempts < u32::MAX {
            p.failed_attempts = p.failed_attempts + 1;
        }
        if p.failed_attempts >= MAX_FAILED_CODES {
            p.locked_until = Some(now + LOCKOUT_SECS);
        }
        return Err("bad_code");
    }
    let id_source = new_token();
    let id_chars = crate::text::chars_of(id_source.as_str());
    let device_id_chars = crate::text::slice_chars(id_chars.as_slice(), 0, 16);
    let device = Device {
        device_id: crate::text::string_of(device_id_chars.as_slice()),
        name: p.device_name.clone(),
        platform: p.platform.clone(),
        token: new_token(),
        last_seen: now,
    };
    proof {
        let b = choose|b: Seq<u8>| b.len() == 16 && id_source@ == hex(b);
        assert(device@.device_id =~= hex(b).take(16));
    }
    let mut kept = keep_others(devices, device.name.as_str(), device.platform.as_str());
    let ghost before = device_views(kept@);
    kept.push(device.clone());
    assert(device_views(kept@) =~= before.push(device@));
    *devices = kept;
    *slot = None;
    Ok(device)
}

/// A code pairs at most once: after it has paired a phone nothing is pending, and every later
/// code, the same one included, is answered `bad_code`.
pub proof fn law_code_is_single_use(
    slot: Option<PendingView>,
    code: Seq<char>,
    now: u64,
    again: Seq<char>,
    later: u64,
)
    requires
        confirm_error(slot, code, now) is None,
    ensures
        after_confirm(slot, code, now) is None,
        confirm_error(after_confirm(slot, code, now), again, later) == Some("bad_code"@),
{
}

/// An expired code never pairs, and it clears the attempt.
pub proof fn law_expired_code_never_pairs(p: PendingView, code: Seq<char>, now: u64)
    requires
        !locked(p, now),
        now > p.expires_at,
    ensures
        confirm_error(Some(p), code, now) == Some("bad_code"@),
        after_confirm(Some(p), code, now) is None,
{
}

/// Three wrong guesses at a fresh code lock the attempt out for five minutes from the third:
/// meanwhile every code, the right one included, is answered `rate_limited`, and so is a new
/// pairing request.
pub proof fn law_three_wrong_guesses_lock_out(
    p: PendingView,
    guesses: Seq<Seq<char>>,
    times: Seq<u64>,
    code: Seq<char>,
    t: u64,
)
    requires
        p.failed_attempts == 0,
        p.locked_until is None,
        guesses.len() == 3,
        times.len() == 3,
        forall|i: int| 0 <= i < 3 ==> guesses[i] != p.code,
        times[0] <= times[1] <= times[2] <= p.expires_at,
        times[2] <= u64::MAX - LOCKOUT_SECS,
        times[2] <= t < times[2] + LOCKOUT_SECS,
    ensures
        ({
            let s1 = after_confirm(Some(p), guesses[0], times[0]);
            let s2 = after_confirm(s1, guesses[1], times[1]);
            let s3 = after_confirm(s2, guesses[2], times[2]);
            &&& s3 matches Some(q) && locked(q, t)
            &&& confirm_error(s3, code, t) == Some("rate_limited"@)
        }),
{
}

/// Whatever the attempt went through before, three guesses at a code still live that are each
/// answered `bad_code` leave it locked for five minutes from the third: meanwhile every code, the right
/// one included, is answered `rate_limited`.
pub proof fn law_three_refused_guesses_lock_out(
    p: PendingView,
    guesses: Seq<Seq<char>>,
    times: Seq<u64>,
    code: Seq<char>,
    t: u64,
)
    requires
        guesses.len() == 3,
        times.len() == 3,
        times[2] <= u64::MAX - LOCKOUT_SECS,
        times[2] <= t < times[2] + LOCKOUT_SECS,
        times[2] <= p.expires_at,
        confirm_error(Some(p), guesses[0], times[0]) == Some("bad_code"@),
        confirm_error(after_confirm(Some(p), guesses[0], times[0]), guesses[1], times[1]) == Some(
            "bad_code"@,
        ),
        confirm_error(
            after_confirm(after_confirm(Some(p), guesses[0], times[0]), guesses[1], times[1]),
            guesses[2],
            times[2],
        ) == Some("bad_code"@),
        after_confirm(after_confirm(Some(p), guesses[0], times[0]), guesses[1], times[1]) is Some,
        after_confirm(Some(p), guesses[0], times[0]) is Some,
    ensures
        ({
            let s1 = after_confirm(Some(p), guesses[0], times[0]);
            let s2 = after_confirm(s1, guesses[1], times[1]);
            let s3 = after_confirm(s2, guesses[2], times[2]);
            &&& s3 matches Some(q) && q.locked_until == Some((times[2] + LOCKOUT_SECS) as u64)
                && locked(q, t)
            &&& confirm_error(s3, code, t) == Some("rate_limited"@)
        }),
{
    reveal_strlit("bad_code");
    reveal_strlit("rate_limited");
    assert("bad_code"@.len() == 8 && "rate_limited"@.len() == 12);
    assert("bad_code"@ != "rate_limited"@);
    let s1 = after_confirm(Some(p), guesses[0], times[0]);
    let s2 = after_confirm(s1, guesses[1], times[1]);
    let q1 = s1->0;
    assert(!locked(p, times[0]));
    assert(times[0] <= p.expires_at);
    assert(guesses[0] != p.code);
    assert(q1.failed_attempts >= 1 && q1.expires_at == p.expires_at && q1.code == p.code);
    let q2 = s2->0;
    assert(!locked(q1, times[1]) && times[1] <= q1.expires_at && guesses[1] != q1.code);
    assert(q2.failed_attempts >= 2 && q2.expires_at == p.expires_at && q2.code == p.code);
    assert(!locked(q2, times[2]) && guesses[2] != q2.code);
}

/// The pending code for the PC to show, with the device that asked and the seconds left; `None`
/// (and the slot cleared) once it has expired or if there is none.
pub fn pending_status(slot: &mut Option<PendingPairing>, now: u64) -> (r: Option<(String, String, u64)>)
    ensures
        match *old(slot) {
            Some(p) => if now <= p.expires_at {
                r matches Some((dev, code, left)) && dev@ == p@.device_name && code@ == p@.code
                    && left == p.expires_at - now && slot_view(*final(slot)) == Some(p@)
            } else {
                r is None && *final(slot) is None
            },
            None => r is None && *final(slot) is None,
        },
{
    match slot {
        Some(p) => {
            if now <= p.expires_at {
                return Some((p.device_name.clone(), p.code.clone(), p.expires_at - now));
            }
        },
        None => {},
    }
    *slot = None;
    None
}

/// The index of the first device with this id.
pub open spec fn device_index(devs: Seq<DeviceView>, id: Seq<char>) -> Option<int>
    decreases devs.len(),
{
    if devs.len() == 0 {
        None
    } else if devs[0].device_id == id {
        Some(0)
    } else {
        match device_index(devs.drop_first(), id) {
            Some(i) => Some(i + 1),
            None => None,
        }
    }
}

/// `device_index` names the first device with that id, and `None` means there is none.
pub proof fn lemma_device_index(devs: Seq<DeviceView>, id: Seq<char>)
    ensures
        device_index(devs, id) matches Some(i) ==> 0 <= i < devs.len() && devs[i].device_id == id
            && forall|j: int| 0 <= j < i ==> devs[j].device_id != id,
        device_index(devs, id) is None ==> forall|j: int|
            0 <= j < devs.len() ==> devs[j].device_id != id,
    decreases devs.len(),
{
    if devs.len() > 0 && devs[0].device_id != id {
        lemma_device_index(devs.drop_first(), id);
        assert forall|j: int| 1 <= j < devs.len() implies devs[j] == devs.drop_first()[j - 1] by {}
    }
}

/// The first index holding `id`, found by a scan.
fn find_device(devices: &Vec<Device>, id: &str) -> (r: Option<usize>)
    ensures
        r matches Some(i) ==> device_index(device_views(devices@), id@) == Some(i as int),
        r is None ==> device_index(device_views(devices@), id@) is None,
{
    let ghost devs = device_views(devices@);
    proof {
        lemma_device_index(devs, id@);
    }
    let mut i: usize = 0;
    while i < devices.len()
        invariant
            i <= devices.len(),
            devs == device_views(devices@),
            forall|j: int| 0 <= j < i ==> devs[j].device_id != id@,
            device_index(devs, id@) matches Some(k) ==> 0 <= k < devs.len() && devs[k].device_id
                == id@ && forall|j: int| 0 <= j < k ==> devs[j].device_id != id@,
            device_index(devs, id@) is None ==> forall|j: int|
                0 <= j < devs.len() ==> devs[j].device_id != id@,
        decreases devices.len() - i,
    {
        if crate::text::same(devices[i].device_id.as_str(), id) {
            assert(devs[i as int].device_id == id@);
            return Some(i);
        }
        i = i + 1;
    }
    None
}

/// A reconnecting device presents its id and token. An unknown id is `revoked`, a wrong token
/// `invalid_token`; a match bumps that device's `last_seen` and changes nothing else.
pub fn authenticate(devices: &mut Vec<Device>, device_id: &str, token: &str, now: u64) -> (r:
    Result<(), &'static str>)
    ensures
        match device_index(device_views(old(devices)@), device_id@) {
            None => err_is(r, "revoked"@) && device_views(final(devices)@) == device_views(
                old(devices)@,
            ),
            Some(i) => if device_views(old(devices)@)[i].token != token@ {
                err_is(r, "invalid_token"@) && device_views(final(devices)@) == device_views(
                    old(devices)@,
                )
            } else {
                r is Ok && device_views(final(devices)@) == device_views(old(devices)@).update(
                    i,
                    DeviceView { last_seen: now, ..device_views(old(devices)@)[i] },
                )
            },
        },
{
    proof {
        lemma_device_index(device_views(devices@), device_id@);
    }
    let i = match find_device(devices, device_id) {
        Some(i) => i,
        None => {
            return Err("revoked");
        },
    };
    if !crate::text::same(devices[i].token.as_str(), token) {
        return Err("invalid_token");
    }
    let mut d = devices[i].clone();
    d.last_seen = now;
    let ghost before = device_views(devices@);
    devices.set(i, d);
    assert(device_views(devices@) =~= before.update(i as int, d@));
    Ok(())
}

/// The devices left after revoking one id: every entry with that id goes, the rest stay in order.
pub open spec fn revoked(devs: Seq<DeviceView>, id: Seq<char>) -> Seq<DeviceView>
    decreases devs.len(),
{
    if devs.len() == 0 {
        Seq::empty()
    } else {
        let rest = revoked(devs.drop_last(), id);
        if devs.last().device_id != id {
            rest.push(devs.last())
        } else {
            rest
        }
    }
}

/// Revokes one device's token. Every other device keeps working.
pub fn revoke_device(devices: &mut Vec<Device>, device_id: &str)
    ensures
        device_views(final(devices)@) == revoked(device_views(old(devices)@), device_id@),
{
    let mut r: Vec<Device> = Vec::new();
    let mut i: usize = 0;
    while i < devices.len()
        invariant
            i <= devices.len(),
            device_views(r@) == revoked(device_views(devices@.subrange(0, i as int)), device_id@),
        decreases devices.len() - i,
    {
        let d = &devices[i];
        proof {
            let next = device_views(devices@.subrange(0, i + 1));
            assert(next.drop_last() =~= device_views(devices@.subrange(0, i as int)));
            assert(next.last() == d@);
        }
        if !crate::text::same(d.device_id.as_str(), device_id) {
            let ghost before = device_views(r@);
            r.push(d.clone());
            assert(device_views(r@) =~= before.push(d@));
        }
        i = i + 1;
    }
    assert(devices@.subrange(0, devices@.len() as int) =~= devices@);
    *devices = r;
}

// ---------------------------------------------------------------------------------------------
// The address the phone is told to reach
// ---------------------------------------------------------------------------------------------

/// An IPv4 address by its four octets.
pub type Octets = (u8, u8, u8, u8);

/// Loopback (127/8) and link-local (169.254/16) addresses can never be reached from a phone.
pub open spec fn reachable(a: Octets) -> bool {
    a.0 != 127 && !(a.0 == 169 && a.1 == 254)
}

/// How likely an address is to be the home network: 192.168 first, then 10, then 172, then the
/// rest (virtual adapters and the like).
pub open spec fn lan_rank(a: Octets) -> int {
    if a.0 == 192 && a.1 == 168 {
        0
    } else if a.0 == 10 {
        1
    } else if a.0 == 172 {
        2
    } else {
        3
    }
}

/// `i` is the address to offer: reachable, of the best rank among the reachable ones, and the
/// first of that rank in the interface list.
pub open spec fn best_at(addrs: Seq<Octets>, i: int) -> bool {
    &&& 0 <= i < addrs.len()
    &&& reachable(addrs[i])
    &&& forall|j: int| 0 <= j < addrs.len() && reachable(addrs[j]) ==> lan_rank(addrs[i])
        <= lan_rank(#[trigger] addrs[j])
    &&& forall|j: int| 0 <= j < i && reachable(addrs[j]) ==> lan_rank(addrs[i]) < lan_rank(
        #[trigger] addrs[j],
    )
}

fn lan_rank_exec(a: Octets) -> (r: u8)
    ensures
        r == lan_rank(a),
{
    if a.0 == 192 && a.1 == 168 {
        0
    } else if a.0 == 10 {
        1
    } else if a.0 == 172 {
        2
    } else {
        3
    }
}

/// Which of the machine's addresses to offer, when asking the OS for its outgoing interface
/// failed: `None` when every address is loopback or link-local.
pub fn pick_lan_address(addrs: &[Octets]) -> (r: Option<usize>)
    ensures
        r is None <==> forall|j: int| 0 <= j < addrs@.len() ==> !reachable(#[trigger] addrs@[j]),
        r matches Some(i) ==> best_at(addrs@, i as int),
{
    let mut best: Option<usize> = None;
    let mut i: usize = 0;
    while i < addrs.len()
        invariant
            i <= addrs.len(),
            best is None <==> forall|j: int| 0 <= j < i ==> !reachable(#[trigger] addrs@[j]),
            best matches Some(b) ==> b < i && best_at(addrs@.subrange(0, i as int), b as int),
        decreases addrs.len() - i,
    {
        let a = addrs[i];
        let ghost pre = addrs@.subrange(0, i as int);
        let ghost next = addrs@.subrange(0, i + 1);
        assert forall|j: int| 0 <= j < i implies next[j] == pre[j] && pre[j] == addrs@[j] by {}
        assert(next[i as int] == a);
        if a.0 != 127 && !(a.0 == 169 && a.1 == 254) {
            match best {
                None => {
                    best = Some(i);
                },
                Some(b) => {
                    if lan_rank_exec(a) < lan_rank_exec(addrs[b]) {
                        best = Some(i);
                    }
                },
            }
        }
        proof {
            if let Some(b) = best {
                assert forall|j: int| 0 <= j < next.len() && reachable(next[j]) implies lan_rank(
                    next[b as int],
                ) <= lan_rank(#[trigger] next[j]) by {
                    if j < i {
                        assert(pre[j] == next[j]);
                    }
                }
                assert forall|j: int| 0 <= j < b && reachable(next[j]) implies lan_rank(
                    next[b as int],
                ) < lan_rank(#[trigger] next[j]) by {
                    assert(pre[j] == next[j]);
                    if b < i {
                        assert(pre[b as int] == next[b as int]);
                    } else {
                        assert(j < i);
                        assert(!(reachable(pre[j])) || lan_rank(pre[j]) >= 0);
                    }
                }
            }
        }
        i = i + 1;
    }
    assert(addrs@.subrange(0, addrs@.len() as int) =~= addrs@);
    best
}

/// An address in dotted-decimal form, as `Ipv4Addr` displays.
pub open spec fn dotted(a: Octets) -> Seq<char> {
    decimal(a.0 as nat) + seq!['.'] + decimal(a.1 as nat) + seq!['.'] + decimal(a.2 as nat) + seq![
        '.',
    ] + decimal(a.3 as nat)
}

/// The address to show the phone, from the machine's interface addresses: the best reachable one
/// by [`pick_lan_address`], or `127.0.0.1` when there is none.
pub fn best_lan_ip(addrs: &[Octets]) -> (r: String)
    ensures
        (forall|j: int| 0 <= j < addrs@.len() ==> !reachable(#[trigger] addrs@[j])) ==> r@
            == "127.0.0.1"@,
        forall|i: int| best_at(addrs@, i) ==> r@ == dotted(addrs@[i]),
{
    match pick_lan_address(addrs) {
        None => crate::text::own("127.0.0.1"),
        Some(i) => {
            let a = addrs[i];
            let mut s = String::new();
            crate::text::push_decimal(&mut s, a.0 as u64);
            s.append(".");
            crate::text::push_decimal(&mut s, a.1 as u64);
            s.append(".");
            crate::text::push_decimal(&mut s, a.2 as u64);
            s.append(".");
            crate::text::push_decimal(&mut s, a.3 as u64);
            proof {
                reveal_strlit(".");
                assert forall|k: int| best_at(addrs@, k) implies k == i by {
                    if k < i {
                        assert(lan_rank(addrs@[i as int]) <= lan_rank(addrs@[k]));
                    } else if k > i {
                        assert(lan_rank(addrs@[k]) <= lan_rank(addrs@[i as int]));
                    }
                }
                assert(s@ =~= dotted(a));
            }
            s
        },
    }
}

// ---------------------------------------------------------------------------------------------
// The QR codes the host shows
// ---------------------------------------------------------------------------------------------

/// The SVG document that `qrcode` draws for the UTF-8 bytes of `data`: the smallest QR code at
/// medium error correction, at least `size` pixels square, dark modules in `dark` and the rest in
/// `light`; `None` when no QR code can hold the data.
pub uninterp spec fn qr_svg_drawing(data: Seq<char>, size: u32, dark: Seq<char>, light: Seq<char>) -> Option<Seq<char>>;

/// `qrcode::QrCode::new` on the text's bytes, then `render::<svg::Color>()` with
/// `min_dimensions(size, size)` and the two colours, then `build`. The contract claims only that
/// the SVG is the crate's drawing of these arguments (named above), and `None` exactly where
/// `QrCode::new` returns an error. The size is bounded so that the renderer's pixel arithmetic
/// stays inside `u32`.
#[verifier::external_body]
fn draw_qr_svg(data: &str, size: u32, dark: &str, light: &str) -> (r: Option<String>)
    requires
        size <= 65535,
    ensures
        match r {
            Some(svg) => qr_svg_drawing(data@, size, dark@, light@) == Some(svg@),
            None => qr_svg_drawing(data@, size, dark@, light@) is None,
        },
{
    match qrcode::QrCode::new(data.as_bytes()) {
        Ok(code) => Some(
            code.render::<qrcode::render::svg::Color>()
                .min_dimensions(size, size)
                .dark_color(qrcode::render::svg::Color(dark))
                .light_color(qrcode::render::svg::Color(light))
                .build(),
        ),
        Err(_) => None,
    }
}

/// The smallest side, in pixels, of the QR codes the host shows.
pub const QR_SIZE: u32 = 220;

/// What the host shows for a drawing: the SVG, or nothing when the data fits no QR code.
pub open spec fn shown_svg(drawn: Option<Seq<char>>) -> Seq<char> {
    match drawn {
        Some(svg) => svg,
        None => Seq::empty(),
    }
}

/// The SVG to show for a drawing, empty where there is none.
pub fn svg_or_empty(drawn: Option<String>) -> (r: String)
    ensures
        r@ == shown_svg(
            match drawn {
                Some(s) => Some(s@),
                None => None,
            },
        ),
{
    match drawn {
        Some(svg) => svg,
        None => String::new(),
    }
}

/// A QR code of `data` as SVG, black on white and at least [`QR_SIZE`] pixels square; empty when
/// the data is too long for any QR code.
pub fn qr_svg(data: &str) -> (r: String)
    ensures
        r@ == shown_svg(qr_svg_drawing(data@, QR_SIZE, "#000000"@, "#ffffff"@)),
{
    let drawn = draw_qr_svg(data, QR_SIZE, "#000000", "#ffffff");
    svg_or_empty(drawn)
}

// ---------------------------------------------------------------------------------------------
// What the phone pins, and what discovery advertises
// ---------------------------------------------------------------------------------------------

/// The certificate's fingerprint: SHA-256 of its DER bytes in lower-case hex. The client pins it,
/// and the PC shows it so the two can be compared by eye.
pub fn cert_fingerprint(der: &[u8]) -> (r: String)
    ensures
        r@ == hex(crate::obs::sha256_of(der@)),
        r@.len() == 64,
{
    let digest = crate::obs::sha256(der);
    proof {
        lemma_hex(digest@);
    }
    hex_string(digest.as_slice())
}

/// The port the host listens on.
pub const WS_PORT: u16 = 8770;

/// The host's name as clients show it.
pub open spec fn host_name() -> Seq<char> {
    "KiBoard Host"@
}

/// The discovery TXT record: protocol version, name, host id, platform, mode, whether pairing is
/// open, and that the socket speaks TLS. Presence only: no secret travels over multicast.
pub open spec fn txt_record(host_id: Seq<char>, pairing_open: bool, mode: Seq<char>) -> Seq<(Seq<char>, Seq<char>)> {
    seq![
        ("v"@, "2"@),
        ("name"@, host_name()),
        ("id"@, host_id),
        ("os"@, "win"@),
        ("mode"@, mode),
        ("pair"@, if pairing_open { "open"@ } else { "closed"@ }),
        ("tls"@, "1"@),
    ]
}

fn txt(k: &str, v: &str) -> (r: (String, String))
    ensures
        r.0@ == k@,
        r.1@ == v@,
{
    (crate::text::own(k), crate::text::own(v))
}

/// The discovery TXT record for this host.
pub fn discovery_record(host_id: &str, pairing_open: bool, mode: &str) -> (r: Vec<(String, String)>)
    ensures
        r@.map_values(|e: (String, String)| (e.0@, e.1@)) == txt_record(host_id@, pairing_open, mode@),
{
    let r = vec![
        txt("v", "2"),
        txt("name", "KiBoard Host"),
        txt("id", host_id),
        txt("os", "win"),
        txt("mode", mode),
        txt("pair", if pairing_open { "open" } else { "closed" }),
        txt("tls", "1"),
    ];
    assert(r@.map_values(|e: (String, String)| (e.0@, e.1@)) =~= txt_record(host_id@, pairing_open, mode@));
    r
}

/// The instance name and host name the host advertises under.
pub fn discovery_names(host_id: &str) -> (r: (String, String))
    ensures
        r.0@ == "KiBoard-"@ + host_id@,
        r.1@ == "kiboard-"@ + host_id@ + ".local."@,
{
    let mut instance = crate::text::own("KiBoard-");
    instance.append(host_id);
    let mut host = crate::text::own("kiboard-");
    host.append(host_id);
    host.append(".local.");
    (instance, host)
}

} // verus!
