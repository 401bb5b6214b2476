use vstd::prelude::*;

verus! {

/// A span of game time, split as the plugin runtime hands it over: whole
/// seconds, and the nanoseconds beyond them.
#[derive(Copy, Clone, Debug, PartialEq, Eq, Structural)]
pub struct GameTime {
    pub seconds: i64,
    pub nanoseconds: i32,
}

/// A command for the timer application.
#[derive(Clone, Debug)]
pub enum WsCommand {
    Start,
    Split,
    Reset,
    UndoSplit,
    SkipSplit,
    SetGameTime(GameTime),
    PauseGameTime,
    ResumeGameTime,
    SetCustomVariable(String, String),
    GetCurrentState,
}

/// The lower-case hexadecimal digit for `d`.
pub open spec fn hex_char(d: nat) -> char {
    if d == 0 { '0' } else if d == 1 { '1' } else if d == 2 { '2' } else if d == 3 { '3' }
    else if d == 4 { '4' } else if d == 5 { '5' } else if d == 6 { '6' } else if d == 7 { '7' }
    else if d == 8 { '8' } else if d == 9 { '9' } else if d == 10 { 'a' } else if d == 11 { 'b' }
    else if d == 12 { 'c' } else if d == 13 { 'd' } else if d == 14 { 'e' } else { 'f' }
}

/// The decimal digits of `n`, most significant first, with no leading zero.
pub open spec fn decimal(n: nat) -> Seq<char>
    decreases n,
{
    if n < 10 {
        seq![hex_char(n)]
    } else {
        decimal(n / 10) + seq![hex_char(n % 10)]
    }
}

/// `n` written in decimal, with a minus sign when negative.
pub open spec fn signed_decimal(n: int) -> Seq<char> {
    if n < 0 {
        seq!['-'] + decimal((-n) as nat)
    } else {
        decimal(n as nat)
    }
}

/// How one character is written inside a JSON string.
pub open spec fn escape_char(c: char) -> Seq<char> {
    if c == '"' {
        seq!['\\', '"']
    } else if c == '\\' {
        seq!['\\', '\\']
    } else if (c as u32) < 32 {
        seq!['\\', 'u', '0', '0', hex_char((c as u32 / 16) as nat), hex_char((c as u32 % 16) as nat)]
    } else {
        seq![c]
    }
}

/// The body of a JSON string that holds `s`.
pub open spec fn escaped(s: Seq<char>) -> Seq<char>
    decreases s.len(),
{
    if s.len() == 0 {
        Seq::empty()
    } else {
        escaped(s.drop_last()) + escape_char(s.last())
    }
}

/// The name of a command without arguments on the wire.
pub open spec fn command_name(c: WsCommand) -> Seq<char> {
    match c {
        WsCommand::Start => "start"@,
        WsCommand::Split => "split"@,
        WsCommand::Reset => "reset"@,
        WsCommand::UndoSplit => "undoSplit"@,
        WsCommand::SkipSplit => "skipSplit"@,
        WsCommand::PauseGameTime => "pauseGameTime"@,
        WsCommand::ResumeGameTime => "resumeGameTime"@,
        WsCommand::GetCurrentState => "getCurrentState"@,
        WsCommand::SetGameTime(_) => "setGameTime"@,
        WsCommand::SetCustomVariable(_, _) => "setCustomVariable"@,
    }
}

/// The JSON text that carries a command.
pub open spec fn encoding(c: WsCommand) -> Seq<char> {
    match c {
        WsCommand::SetGameTime(t) => "{\"command\":\"setGameTime\",\"time\":\""@ + signed_decimal(
            t.seconds as int,
        ) + "\"}"@,
        WsCommand::SetCustomVariable(k, v) => "{\"command\":\"setCustomVariable\",\"key\":\""@
            + escaped(k@) + "\",\"value\":\""@ + escaped(v@) + "\"}"@,
        _ => "{\"command\":\""@ + command_name(c) + "\"}"@,
    }
}

fn hex_digit(d: u32) -> (r: &'static str)
    requires
        d < 16,
    ensures
        r@ == seq![hex_char(d as nat)],
{
    if d == 0 { proof { reveal_strlit("0"); } "0" }
    else if d == 1 { proof { reveal_strlit("1"); } "1" }
    else if d == 2 { proof { reveal_strlit("2"); } "2" }
    else if d == 3 { proof { reveal_strlit("3"); } "3" }
    else if d == 4 { proof { reveal_strlit("4"); } "4" }
    else if d == 5 { proof { reveal_strlit("5"); } "5" }
    else if d == 6 { proof { reveal_strlit("6"); } "6" }
    else if d == 7 { proof { reveal_strlit("7"); } "7" }
    else if d == 8 { proof { reveal_strlit("8"); } "8" }
    else if d == 9 { proof { reveal_strlit("9"); } "9" }
    else if d == 10 { proof { reveal_strlit("a"); } "a" }
    else if d == 11 { proof { reveal_strlit("b"); } "b" }
    else if d == 12 { proof { reveal_strlit("c"); } "c" }
    else if d == 13 { proof { reveal_strlit("d"); } "d" }
    else if d == 14 { proof { reveal_strlit("e"); } "e" }
    else { proof { reveal_strlit("f"); } "f" }
}

/// Appends the decimal digits of `n`.
fn append_decimal(out: &mut String, n: u64)
    ensures
        final(out)@ == old(out)@ + decimal(n as nat),
    decreases n,
{
    if n >= 10 {
        append_decimal(out, n / 10);
    }
    out.append(hex_digit((n % 10) as u32));
}

/// Appends `n` in decimal, with a minus sign when negative.
fn append_signed_decimal(out: &mut String, n: i64)
    ensures
        final(out)@ == old(out)@ + signed_decimal(n as int),
{
    if n < 0 {
        proof { reveal_strlit("-"); }
        out.append("-");
        let m: u64 = ((-(n + 1)) as u64) + 1;
        append_decimal(out, m);
        assert(seq!['-'] + decimal((-n) as nat) == "-"@ + decimal(m as nat));
    } else {
        append_decimal(out, n as u64);
    }
}

/// Appends the characters of `s` as they are written inside a JSON string.
fn append_escaped(out: &mut String, s: &str)
    ensures
        final(out)@ == old(out)@ + escaped(s@),
{
    let n = s.unicode_len();
    let mut i: usize = 0;
    assert(s@.subrange(0, 0) =~= Seq::<char>::empty());
    while i < n
        invariant
            n == s@.len(),
            i <= n,
            out@ == old(out)@ + escaped(s@.subrange(0, i as int)),
        decreases n - i,
    {
        let c = s.get_char(i);
        let prefix = Ghost(s@.subrange(0, i + 1));
        assert(prefix@.drop_last() =~= s@.subrange(0, i as int));
        assert(prefix@.last() == c);
        if c == '"' {
            proof { reveal_strlit("\\\""); }
            out.append("\\\"");
        } else if c == '\\' {
            proof { reveal_strlit("\\\\"); }
            out.append("\\\\");
        } else if (c as u32) < 32 {
            proof { reveal_strlit("\\u00"); }
            out.append("\\u00");
            out.append(hex_digit(c as u32 / 16));
            out.append(hex_digit(c as u32 % 16));
        } else {
            let one = s.substring_char(i, i + 1);
            assert(one@ =~= seq![c]);
            out.append(one);
        }
        assert(out@ =~= old(out)@ + escaped(s@.subrange(0, i + 1)));
        i = i + 1;
    }
    assert(s@.subrange(0, n as int) =~= s@);
}

/// The JSON text that carries `cmd` to the timer application.
pub fn encode(cmd: &WsCommand) -> (r: String)
    ensures
        r@ == encoding(*cmd),
{
    let mut out = String::new();
    match cmd {
        WsCommand::SetGameTime(t) => {
            out.append("{\"command\":\"setGameTime\",\"time\":\"");
            append_signed_decimal(&mut out, t.seconds);
            out.append("\"}");
        },
        WsCommand::SetCustomVariable(k, v) => {
            out.append("{\"command\":\"setCustomVariable\",\"key\":\"");
            append_escaped(&mut out, k.as_str());
            out.append("\",\"value\":\"");
            append_escaped(&mut out, v.as_str());
            out.append("\"}");
        },
        _ => {
            out.append("{\"command\":\"");
            let name = match cmd {
                WsCommand::Start => "start",
                WsCommand::Split => "split",
                WsCommand::Reset => "reset",
                WsCommand::UndoSplit => "undoSplit",
                WsCommand::SkipSplit => "skipSplit",
                WsCommand::PauseGameTime => "pauseGameTime",
                WsCommand::ResumeGameTime => "resumeGameTime",
                _ => "getCurrentState",
            };
            assert(name@ == command_name(*cmd));
            out.append(name);
            out.append("\"}");
        },
    }
    assert(out@ =~= encoding(*cmd));
    out
}

} // verus!
