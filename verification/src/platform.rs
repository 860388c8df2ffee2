//! Decisions of the platform layer: the command line of the shell restart
//! helper, the result of the elevation request, when a restarted taskbar is
//! back, which window gets the focus back, and which embedded icon is loaded.

use crate::localization::{decimal, spec_decimal};
use crate::injector::text_equals;
use vstd::prelude::*;
use vstd::string::*;

verus! {

/// Why a text is no decimal `u32`.
#[derive(Clone, Copy, Debug, PartialEq, Eq, Structural)]
pub enum ParseFailure {
    Empty,
    InvalidDigit,
    PosOverflow,
}

/// The value of a decimal digit character.
pub open spec fn digit_value(c: char) -> Option<nat> {
    if '0' <= c && c <= '9' {
        Some((c as u32 - '0' as u32) as nat)
    } else {
        None
    }
}

/// The value of the digits `s`, read left to right; the first position that
/// is no digit, or at which the value no longer fits a `u32`, fails.
pub open spec fn spec_parse_digits(s: Seq<char>) -> Result<u32, ParseFailure>
    decreases s.len(),
{
    if s.len() == 0 {
        Ok(0u32)
    } else {
        match spec_parse_digits(s.drop_last()) {
            Err(failure) => Err(failure),
            Ok(value) => match digit_value(s.last()) {
                None => Err(ParseFailure::InvalidDigit),
                Some(d) => if value * 10 + d > u32::MAX {
                    Err(ParseFailure::PosOverflow)
                } else {
                    Ok((value * 10 + d) as u32)
                },
            },
        }
    }
}

/// A decimal `u32`, as the standard library reads one: an optional plus sign,
/// then at least one digit.
pub open spec fn spec_parse_u32(s: Seq<char>) -> Result<u32, ParseFailure> {
    if s.len() == 0 {
        Err(ParseFailure::Empty)
    } else if s[0] == '+' || s[0] == '-' {
        if s.len() == 1 {
            Err(ParseFailure::InvalidDigit)
        } else if s[0] == '+' {
            spec_parse_digits(s.skip(1))
        } else {
            spec_parse_digits(s)
        }
    } else {
        spec_parse_digits(s)
    }
}

fn digit(c: char) -> (r: Option<u32>)
    ensures
        match digit_value(c) {
            Some(d) => r == Some(d as u32),
            None => r is None,
        },
{
    if '0' <= c && c <= '9' {
        Some(c as u32 - '0' as u32)
    } else {
        None
    }
}

fn parse_digits(text: &str, from: usize) -> (r: Result<u32, ParseFailure>)
    requires
        from <= text@.len(),
    ensures
        r == spec_parse_digits(text@.subrange(from as int, text@.len() as int)),
{
    let length = text.unicode_len();
    let mut value: u32 = 0;
    let mut index: usize = from;
    proof {
        assert(text@.subrange(from as int, from as int) =~= Seq::<char>::empty());
    }
    while index < length
        invariant
            from <= index <= length,
            length == text@.len(),
            spec_parse_digits(text@.subrange(from as int, index as int)) == Ok::<u32, ParseFailure>(value),
        decreases length - index,
    {
        let c = text.get_char(index);
        let ghost prefix = text@.subrange(from as int, index as int + 1);
        proof {
            assert(prefix.drop_last() =~= text@.subrange(from as int, index as int));
            assert(prefix.last() == c);
        }
        let d = match digit(c) {
            Some(d) => d,
            None => {
                proof {
                    assert(text@.subrange(from as int, length as int).subrange(0, (index - from + 1) as int) =~= prefix);
                    assert(spec_parse_digits(prefix) == Err::<u32, ParseFailure>(ParseFailure::InvalidDigit));
                    lemma_failure_persists(text@.subrange(from as int, length as int), (index - from + 1) as int);
                }
                return Err(ParseFailure::InvalidDigit);
            },
        };
        if value > (u32::MAX - d) / 10 {
            proof {
                assert(value * 10 + d > u32::MAX) by (nonlinear_arith)
                    requires
                        value > (u32::MAX - d) / 10,
                        d <= 9,
                ;
                assert(text@.subrange(from as int, length as int).subrange(0, (index - from + 1) as int) =~= prefix);
                assert(spec_parse_digits(prefix) == Err::<u32, ParseFailure>(ParseFailure::PosOverflow));
                lemma_failure_persists(text@.subrange(from as int, length as int), (index - from + 1) as int);
            }
            return Err(ParseFailure::PosOverflow);
        }
        proof {
            assert(value * 10 + d <= u32::MAX) by (nonlinear_arith)
                requires
                    value <= (u32::MAX - d) / 10,
                    d <= 9,
            ;
        }
        value = value * 10 + d;
        index += 1;
    }
    proof {
        assert(text@.subrange(from as int, length as int) =~= text@.subrange(from as int, index as int));
    }
    Ok(value)
}

/// A failure at a prefix is the failure of the whole text.
proof fn lemma_failure_persists(s: Seq<char>, k: int)
    requires
        0 <= k <= s.len(),
        spec_parse_digits(s.subrange(0, k)) is Err,
    ensures
        spec_parse_digits(s) == spec_parse_digits(s.subrange(0, k)),
    decreases s.len() - k,
{
    if k < s.len() {
        assert(s.subrange(0, k + 1).drop_last() =~= s.subrange(0, k));
        lemma_failure_persists(s, k + 1);
    } else {
        assert(s.subrange(0, k) =~= s);
    }
}

/// Reads a decimal `u32` as the standard library does.
pub fn parse_u32(text: &str) -> (r: Result<u32, ParseFailure>)
    ensures
        r == spec_parse_u32(text@),
{
    let length = text.unicode_len();
    if length == 0 {
        return Err(ParseFailure::Empty);
    }
    let first = text.get_char(0);
    if first == '+' || first == '-' {
        if length == 1 {
            return Err(ParseFailure::InvalidDigit);
        }
        if first == '+' {
            proof {
                assert(text@.skip(1) =~= text@.subrange(1, text@.len() as int));
            }
            return parse_digits(text, 1);
        }
    }
    proof {
        assert(text@ =~= text@.subrange(0, text@.len() as int));
    }
    parse_digits(text, 0)
}

/// Reading back the decimal notation of a number gives the number.
pub proof fn lemma_parse_decimal(n: u32)
    ensures
        spec_parse_u32(spec_decimal(n as nat)) == Ok::<u32, ParseFailure>(n),
{
    lemma_parse_digits_decimal(n as nat);
    lemma_decimal_starts_with_digit(n as nat);
}

proof fn lemma_decimal_starts_with_digit(n: nat)
    ensures
        spec_decimal(n).len() >= 1,
        digit_value(spec_decimal(n)[0]) is Some,
    decreases n,
{
    if n >= 10 {
        lemma_decimal_starts_with_digit(n / 10);
        assert(spec_decimal(n)[0] == spec_decimal(n / 10)[0]);
    } else {
        lemma_digit_value(n);
    }
}

proof fn lemma_digit_value(d: nat)
    requires
        d < 10,
    ensures
        digit_value(crate::localization::digit_char(d)) == Some(d),
{
    if d == 0 {
        assert(digit_value('0') == Some(0nat));
    } else if d == 1 {
        assert(digit_value('1') == Some(1nat));
    } else if d == 2 {
        assert(digit_value('2') == Some(2nat));
    } else if d == 3 {
        assert(digit_value('3') == Some(3nat));
    } else if d == 4 {
        assert(digit_value('4') == Some(4nat));
    } else if d == 5 {
        assert(digit_value('5') == Some(5nat));
    } else if d == 6 {
        assert(digit_value('6') == Some(6nat));
    } else if d == 7 {
        assert(digit_value('7') == Some(7nat));
    } else if d == 8 {
        assert(digit_value('8') == Some(8nat));
    } else {
        assert(digit_value('9') == Some(9nat));
    }
}

proof fn lemma_parse_digits_decimal(n: nat)
    requires
        n <= u32::MAX,
    ensures
        spec_parse_digits(spec_decimal(n)) == Ok::<u32, ParseFailure>(n as u32),
    decreases n,
{
    if n < 10 {
        let s = spec_decimal(n);
        assert(s == seq![crate::localization::digit_char(n)]);
        assert(s.drop_last() =~= Seq::<char>::empty());
        assert(spec_parse_digits(s.drop_last()) == Ok::<u32, ParseFailure>(0u32));
        assert(s.last() == crate::localization::digit_char(n));
        lemma_digit_value(n);
        assert(spec_parse_digits(s) == Ok::<u32, ParseFailure>((0u32 * 10 + n) as u32));
    } else {
        lemma_parse_digits_decimal(n / 10);
        let s = spec_decimal(n);
        assert(s == spec_decimal(n / 10).push(crate::localization::digit_char(n % 10)));
        assert(s.drop_last() =~= spec_decimal(n / 10));
        assert(s.last() == crate::localization::digit_char(n % 10));
        lemma_digit_value(n % 10);
        assert((n / 10) * 10 + n % 10 == n);
        assert(spec_parse_digits(s.drop_last()) == Ok::<u32, ParseFailure>((n / 10) as u32));
        assert(((n / 10) as u32) * 10 + n % 10 == n);
        assert(digit_value(s.last()) == Some(n % 10));
        assert(spec_parse_digits(s) == Ok::<u32, ParseFailure>((((n / 10) as u32) * 10 + n % 10) as u32));
    }
}

/// The message the standard library gives for each failure.
pub open spec fn spec_failure_message(failure: ParseFailure) -> Seq<char> {
    match failure {
        ParseFailure::Empty => "cannot parse integer from empty string"@,
        ParseFailure::InvalidDigit => "invalid digit found in string"@,
        ParseFailure::PosOverflow => "number too large to fit in target type"@,
    }
}

pub fn failure_message(failure: ParseFailure) -> (r: &'static str)
    ensures
        r@ == spec_failure_message(failure),
{
    match failure {
        ParseFailure::Empty => "cannot parse integer from empty string",
        ParseFailure::InvalidDigit => "invalid digit found in string",
        ParseFailure::PosOverflow => "number too large to fit in target type",
    }
}

/// The command line argument that starts the shell restart helper.
pub open spec fn restart_helper_argument() -> Seq<char> {
    "--ep-start-restart-shell-helper"@
}

/// What the command line `arguments` (the program first) asks of the restart
/// helper: nothing where its first argument is not the helper switch; the
/// parent process to wait for where the next one is its decimal id; the error
/// otherwise.
pub open spec fn spec_restart_request(arguments: Seq<Seq<char>>) -> Result<Option<u32>, Seq<char>> {
    if arguments.len() < 2 || arguments[1] != restart_helper_argument() {
        Ok(None)
    } else if arguments.len() < 3 {
        Err("重启辅助进程缺少父进程 ID"@)
    } else {
        match spec_parse_u32(arguments[2]) {
            Ok(id) => Ok(Some(id)),
            Err(failure) => Err("解析父进程 ID 失败："@ + spec_failure_message(failure)),
        }
    }
}

pub fn restart_helper_request(arguments: &Vec<String>) -> (r: Result<Option<u32>, String>)
    ensures
        match (r, spec_restart_request(arguments@.map_values(|a: String| a@))) {
            (Ok(a), Ok(b)) => a == b,
            (Err(a), Err(b)) => a@ == b,
            _ => false,
        },
{
    let ghost views = arguments@.map_values(|a: String| a@);
    if arguments.len() < 2 || !text_equals(arguments[1].as_str(), "--ep-start-restart-shell-helper") {
        return Ok(None);
    }
    if arguments.len() < 3 {
        return Err(String::from_str("重启辅助进程缺少父进程 ID"));
    }
    match parse_u32(arguments[2].as_str()) {
        Ok(id) => Ok(Some(id)),
        Err(failure) => {
            let mut message = String::from_str("解析父进程 ID 失败：");
            message.append(failure_message(failure));
            Err(message)
        },
    }
}

/// The decimal notation of a signed value.
pub open spec fn spec_signed_decimal(value: int) -> Seq<char> {
    if value < 0 {
        "-"@ + spec_decimal((-value) as nat)
    } else {
        spec_decimal(value as nat)
    }
}

fn signed_decimal(value: i32) -> (r: String)
    ensures
        r@ == spec_signed_decimal(value as int),
{
    if value < 0 {
        let magnitude: u32 = if value == i32::MIN { 0x8000_0000 } else { (-value) as u32 };
        let mut text = String::from_str("-");
        let digits = decimal(magnitude);
        text.append(digits.as_str());
        text
    } else {
        decimal(value as u32)
    }
}

/// The result of asking for elevation: an elevated copy was started where the
/// shell answered above 32; the error with the shell's answer otherwise.
pub fn elevation_result(code: i32) -> (r: Result<bool, String>)
    ensures
        code > 32 ==> r == Ok::<bool, String>(false),
        code <= 32 ==> (r matches Err(message) && message@ == "请求管理员权限失败，ShellExecuteW 返回 "@ + spec_signed_decimal(
            code as int,
        )),
{
    if code <= 32 {
        let mut message = String::from_str("请求管理员权限失败，ShellExecuteW 返回 ");
        let number = signed_decimal(code);
        message.append(number.as_str());
        return Err(message);
    }
    Ok(false)
}

/// Whether the taskbar is back after Explorer was restarted: it belongs to a
/// process, and not to the one that was ended.
pub fn taskbar_restarted(process_id: u32, previous_process_id: u32) -> (r: bool)
    ensures
        r == (process_id != 0 && process_id != previous_process_id),
{
    process_id != 0 && process_id != previous_process_id
}

/// The foreground window handed back when the Start menu closes, by handle
/// value (0 for none).
pub struct ForegroundActivation {
    pub target: u64,
    pub previous: Option<u64>,
    pub restore_enabled: bool,
}

impl ForegroundActivation {
    /// `target` is brought to the foreground while `foreground` was there: a
    /// different foreground window is remembered to be restored later.
    pub fn activate(target: u64, foreground: u64) -> (r: Self)
        ensures
            r.target == target,
            r.previous == (if foreground != 0 && foreground != target { Some(foreground) } else { None }),
            r.restore_enabled,
    {
        let previous = if foreground != 0 && foreground != target {
            Some(foreground)
        } else {
            None
        };
        ForegroundActivation { target, previous, restore_enabled: true }
    }

    /// Nothing is to be restored.
    pub fn abandon_restore(&mut self)
        ensures
            !final(self).restore_enabled,
            final(self).previous is None,
            final(self).target == old(self).target,
    {
        self.restore_enabled = false;
        self.previous = None;
    }

    /// Restoring, once: the remembered window, to be activated again if the
    /// target still has the foreground and the window still exists.
    pub fn restore(&mut self) -> (r: Option<u64>)
        ensures
            r == (if old(self).restore_enabled { old(self).previous } else { None }),
            !final(self).restore_enabled,
            old(self).restore_enabled ==> final(self).previous is None,
            !old(self).restore_enabled ==> final(self).previous == old(self).previous,
            final(self).target == old(self).target,
    {
        if !self.restore_enabled {
            return None;
        }
        self.restore_enabled = false;
        let previous = self.previous;
        self.previous = None;
        previous
    }

    /// Whether the remembered window gets the foreground back.
    pub fn reactivates(&self, foreground: u64, previous_exists: bool) -> (r: bool)
        ensures
            r == (foreground == self.target && previous_exists),
    {
        foreground == self.target && previous_exists
    }
}

/// Whether the input queues of two threads are joined to move the focus: both
/// are known and different.
pub fn joins_input_queues(from_thread: u32, to_thread: u32) -> (r: bool)
    ensures
        r == (from_thread != 0 && to_thread != 0 && from_thread != to_thread),
{
    from_thread != 0 && to_thread != 0 && from_thread != to_thread
}

/// The event of a foreground change.
pub const EVENT_SYSTEM_FOREGROUND: u32 = 0x0003;

/// Whether a foreground event is forwarded: it is a foreground change while
/// watching is enabled, to a known target with a registered message.
pub fn forwards_foreground_change(event: u32, enabled: bool, target: u64, foreground: u64, message: u32) -> (r: bool)
    ensures
        r == (event == EVENT_SYSTEM_FOREGROUND && enabled && target != 0 && foreground != 0 && message != 0),
{
    event == EVENT_SYSTEM_FOREGROUND && enabled && target != 0 && foreground != 0 && message != 0
}

/// Watching the foreground needs a target window and a message.
pub fn watch_request(target: u64, message: u32) -> (r: Result<(), String>)
    ensures
        target != 0 && message != 0 ==> r is Ok,
        target == 0 || message == 0 ==> (r matches Err(e) && e@ == "无法使用无效窗口或消息监听前台切换"@),
{
    if target == 0 || message == 0 {
        return Err(String::from_str("无法使用无效窗口或消息监听前台切换"));
    }
    Ok(())
}

/// Whether the small embedded icon is loaded for the notification area: the
/// system's small icon size, taken as at least 16, is 16 by 16.
pub fn uses_small_icon(metric_width: i32, metric_height: i32) -> (r: bool)
    ensures
        r == ((if metric_width >= 16 { metric_width } else { 16 }) <= 16 && (if metric_height >= 16 {
            metric_height
        } else {
            16
        }) <= 16),
{
    let width = if metric_width >= 16 { metric_width } else { 16 };
    let height = if metric_height >= 16 { metric_height } else { 16 };
    width <= 16 && height <= 16
}

} // verus!
