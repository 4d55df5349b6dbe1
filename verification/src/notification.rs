//! Post-capture toast notifications: their texts and error types. Sending a
//! notification is the host application's part.

use vstd::prelude::*;

use crate::text::{dec_chars, digit_char, push_decimal, push_str, string_from_chars};

verus! {

/// `n / d` rounded to the nearest integer, ties to the even neighbour, as
/// correctly rounded decimal formatting does.
pub open spec fn div_round_even(n: nat, d: nat) -> nat {
    let q = n / d;
    let r = n % d;
    if 2 * r > d {
        q + 1
    } else if 2 * r < d {
        q
    } else if q % 2 == 0 {
        q
    } else {
        q + 1
    }
}

/// The power of two by which an integer must be divided before it fits the
/// 53-bit significand of an `f64`.
pub open spec fn f64_scale(b: nat) -> nat
    decreases b,
{
    if b < 0x20_0000_0000_0000 {
        1
    } else {
        2 * f64_scale(b / 2)
    }
}

/// The value of `b as f64`: `b` rounded to the nearest number with a 53-bit
/// significand, ties to even.
pub open spec fn f64_value(b: nat) -> nat {
    div_round_even(b, f64_scale(b)) * f64_scale(b)
}

/// `n / d` written with one decimal, correctly rounded.
pub open spec fn one_decimal(n: nat, d: nat) -> Seq<char> {
    let t = div_round_even(10 * n, d);
    dec_chars(t / 10) + "."@ + seq![digit_char(t % 10)]
}

/// The human-readable size: bytes below 1 KiB; below 1 MiB in KB; otherwise
/// in MB. A value below ten shows one decimal, a larger one none.
pub open spec fn file_size_text(bytes: nat) -> Seq<char> {
    if bytes < 1024 {
        dec_chars(bytes) + " B"@
    } else if bytes < 1048576 {
        if bytes < 10240 {
            one_decimal(bytes, 1024) + " KB"@
        } else {
            dec_chars(div_round_even(bytes, 1024)) + " KB"@
        }
    } else {
        let f = f64_value(bytes);
        if f < 10 * 1048576 {
            one_decimal(f, 1048576) + " MB"@
        } else {
            dec_chars(div_round_even(f, 1048576)) + " MB"@
        }
    }
}

fn div_round_even_exec(n: u128, d: u128) -> (r: u128)
    requires
        d > 0,
        d < 0x1000_0000_0000_0000_0000_0000_0000_0000u128,
        n < 0x1000_0000_0000_0000_0000_0000_0000_0000u128,
    ensures
        r == div_round_even(n as nat, d as nat),
{
    let q = n / d;
    let r = n % d;
    assert(q <= n) by (nonlinear_arith)
        requires
            d > 0,
            q == n / d,
    ;
    if 2 * r > d {
        q + 1
    } else if 2 * r < d {
        q
    } else if q % 2 == 0 {
        q
    } else {
        q + 1
    }
}

proof fn lemma_scale_positive(b: nat)
    ensures
        f64_scale(b) >= 1,
    decreases b,
{
    if b >= 0x20_0000_0000_0000 {
        lemma_scale_positive(b / 2);
    }
}

fn f64_rounded(b: u64) -> (f: u128)
    ensures
        f == f64_value(b as nat),
        f <= 2 * (b as nat) + 2,
{
    let mut s: u128 = 1;
    let mut c: u64 = b;
    proof {
        lemma_scale_positive(b as nat);
    }
    while c >= 0x20_0000_0000_0000
        invariant
            1 <= s <= 0x1_0000_0000_0000_0000,
            b >= 1 ==> c >= 1,
            s * (c as nat) <= b,
            f64_scale(b as nat) == s * f64_scale(c as nat),
        decreases c,
    {
        proof {
            lemma_scale_positive((c / 2) as nat);
            assert(f64_scale(c as nat) == 2 * f64_scale((c / 2) as nat));
            assert(s * (2 * f64_scale((c / 2) as nat)) == (2 * s) * f64_scale((c / 2) as nat))
                by (nonlinear_arith);
            assert((2 * s) * ((c / 2) as nat) <= s * (c as nat)) by (nonlinear_arith)
                requires
                    s >= 1,
            ;
            assert(s * (c as nat) >= s * 0x20_0000_0000_0000) by (nonlinear_arith)
                requires
                    c >= 0x20_0000_0000_0000,
                    s >= 1,
            ;
        }
        s = 2 * s;
        c = c / 2;
    }
    assert(f64_scale(c as nat) == 1);
    assert(f64_scale(b as nat) == s) by (nonlinear_arith)
        requires
            f64_scale(b as nat) == s * f64_scale(c as nat),
            f64_scale(c as nat) == 1,
    ;
    let q = div_round_even_exec(b as u128, s);
    proof {
        assert(q <= (b as nat) / (s as nat) + 1);
        assert(((b as nat) / (s as nat)) * (s as nat) <= b) by (nonlinear_arith)
            requires
                s >= 1,
        ;
        assert(q * s <= ((b as nat) / (s as nat)) * (s as nat) + s) by (nonlinear_arith)
            requires
                q <= (b as nat) / (s as nat) + 1,
                s >= 1,
        ;
        if b >= 1 {
            assert(s <= b) by (nonlinear_arith)
                requires
                    s * (c as nat) <= b,
                    c >= 1,
                    s >= 1,
            ;
        }
    }
    q * s
}

/// Pushes `n / d` with one correctly rounded decimal onto `out`.
fn push_one_decimal(out: &mut Vec<char>, n: u128, d: u128)
    requires
        d > 0,
        d <= 0x1_0000_0000_0000_0000,
        n < 0x1_0000_0000_0000_0000,
    ensures
        final(out)@ == old(out)@ + one_decimal(n as nat, d as nat),
{
    let t = div_round_even_exec(10 * n, d);
    proof {
        assert((10 * n as nat) / (d as nat) <= 10 * n as nat) by (nonlinear_arith)
            requires
                d > 0,
        ;
    }
    push_decimal(out, (t / 10) as u64);
    out.push('.');
    let dgt = (t % 10) as u64;
    let c = if dgt == 0 { '0' }
        else if dgt == 1 { '1' }
        else if dgt == 2 { '2' }
        else if dgt == 3 { '3' }
        else if dgt == 4 { '4' }
        else if dgt == 5 { '5' }
        else if dgt == 6 { '6' }
        else if dgt == 7 { '7' }
        else if dgt == 8 { '8' }
        else { '9' };
    out.push(c);
    proof {
        reveal_strlit(".");
    }
    assert(final(out)@ =~= old(out)@ + one_decimal(n as nat, d as nat));
}

/// Errors of the notification service.
#[derive(Debug, Clone, PartialEq, Eq)]
pub enum NotificationError {
    /// The notification could not be handed to the operating system.
    SendFailed(String),
    /// The notification actions could not be registered at startup.
    SetupFailed(String),
}

/// How a notification error reads.
pub open spec fn notification_error_text(e: NotificationError) -> Seq<char> {
    match e {
        NotificationError::SendFailed(m) => "Failed to send notification: "@ + m@,
        NotificationError::SetupFailed(m) => "Failed to setup notification actions: "@ + m@,
    }
}

impl NotificationError {
    /// The human-readable text of this error.
    pub fn to_string(&self) -> (r: String)
        ensures
            r@ == notification_error_text(*self),
    {
        let mut v: Vec<char> = Vec::new();
        match self {
            NotificationError::SendFailed(m) => {
                push_str(&mut v, "Failed to send notification: ");
                push_str(&mut v, m.as_str());
            },
            NotificationError::SetupFailed(m) => {
                push_str(&mut v, "Failed to setup notification actions: ");
                push_str(&mut v, m.as_str());
            },
        }
        string_from_chars(v.as_slice())
    }
}

/// The data of a notification after a successful capture.
pub struct CaptureNotification {
    /// Name of the saved file.
    pub filename: String,
    /// Human-readable size of the saved file.
    pub file_size_display: String,
    /// Directory where the file was saved.
    pub dir_path: String,
    /// The image may be black (a warning rather than plain success).
    pub is_warning: bool,
}

/// Title of a capture notification.
pub open spec fn capture_title_text(is_warning: bool) -> Seq<char> {
    if is_warning {
        "Captura salva (possível erro)"@
    } else {
        "Captura salva"@
    }
}

/// Body of a capture notification.
pub open spec fn capture_body_text(n: CaptureNotification) -> Seq<char> {
    if n.is_warning {
        "A imagem pode estar corrompida. Verifique o arquivo em "@ + n.dir_path@
    } else {
        n.filename@ + " — "@ + n.file_size_display@ + "\n"@ + n.dir_path@
    }
}

/// Body of an error notification.
pub open spec fn error_body_text(error_message: Seq<char>) -> Seq<char> {
    "Falha ao salvar captura — "@ + error_message
}

/// The toast notifications of the capture pipeline.
pub struct NotificationService;

impl NotificationService {
    /// Formats a file size for people: `N B` below 1024 bytes, then KB below
    /// 1 MiB, then MB; one decimal when the value is below ten.
    pub fn format_file_size(bytes: u64) -> (r: String)
        ensures
            r@ == file_size_text(bytes as nat),
    {
        let mut v: Vec<char> = Vec::new();
        if bytes < 1024 {
            push_decimal(&mut v, bytes);
            push_str(&mut v, " B");
        } else if bytes < 1048576 {
            if bytes < 10240 {
                push_one_decimal(&mut v, bytes as u128, 1024);
            } else {
                let q = div_round_even_exec(bytes as u128, 1024);
                push_decimal(&mut v, q as u64);
            }
            push_str(&mut v, " KB");
        } else {
            let f = f64_rounded(bytes);
            if f < 10 * 1048576 {
                push_one_decimal(&mut v, f, 1048576);
            } else {
                let q = div_round_even_exec(f, 1048576);
                proof {
                    assert(f / 1048576 <= f) by (nonlinear_arith);
                }
                push_decimal(&mut v, q as u64);
            }
            push_str(&mut v, " MB");
        }
        assert(v@ =~= file_size_text(bytes as nat));
        string_from_chars(v.as_slice())
    }

    /// Title of the notification sent after a capture.
    pub fn capture_title(is_warning: bool) -> (r: &'static str)
        ensures
            r@ == capture_title_text(is_warning),
    {
        if is_warning {
            "Captura salva (possível erro)"
        } else {
            "Captura salva"
        }
    }

    /// Body of the notification sent after a capture.
    pub fn capture_body(notification: &CaptureNotification) -> (r: String)
        ensures
            r@ == capture_body_text(*notification),
    {
        let mut v: Vec<char> = Vec::new();
        if notification.is_warning {
            push_str(&mut v, "A imagem pode estar corrompida. Verifique o arquivo em ");
            push_str(&mut v, notification.dir_path.as_str());
        } else {
            push_str(&mut v, notification.filename.as_str());
            push_str(&mut v, " — ");
            push_str(&mut v, notification.file_size_display.as_str());
            push_str(&mut v, "\n");
            push_str(&mut v, notification.dir_path.as_str());
        }
        assert(v@ =~= capture_body_text(*notification));
        string_from_chars(v.as_slice())
    }

    /// Title of the notification sent when a capture fails.
    pub fn error_title() -> (r: &'static str)
        ensures
            r@ == "Falha na captura"@,
    {
        "Falha na captura"
    }

    /// Body of the notification sent when a capture fails.
    pub fn error_body(error_message: &str) -> (r: String)
        ensures
            r@ == error_body_text(error_message@),
    {
        let mut v: Vec<char> = Vec::new();
        push_str(&mut v, "Falha ao salvar captura — ");
        push_str(&mut v, error_message);
        string_from_chars(v.as_slice())
    }
}

} // verus!
