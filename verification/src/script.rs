use vstd::prelude::*;
use vstd::string::StringExecFns;

use crate::text::{
    joined, chars_of, parse_i64, parsed_i64, push_char, signed_dec, signed_decimal, trim, trim_text,
};

verus! {

/// `s` with a backslash put before every double quote, so that it can stand
/// inside a quoted AppleScript string.
pub open spec fn escape_quotes(s: Seq<char>) -> Seq<char>
    decreases s.len(),
{
    if s.len() == 0 {
        Seq::<char>::empty()
    } else if s.last() == '"' {
        escape_quotes(s.drop_last()) + seq!['\\', '"']
    } else {
        escape_quotes(s.drop_last()).push(s.last())
    }
}

/// The AppleScript that brings the application `app_name` to the front and
/// sends Command-V to it.
pub open spec fn activate_script_text(app_name: Seq<char>) -> Seq<char> {
    "tell application \""@ + escape_quotes(app_name)
        + "\" to activate\ndelay 0.15\ntell application \"System Events\"\n    keystroke \"v\" using command down\nend tell"@
}

/// The range between two cursor positions: its start and its length.
pub open spec fn selection_bounds(start: int, end: int) -> (int, int) {
    if start <= end {
        (start, end - start)
    } else {
        (end, start - end)
    }
}

/// The AppleScript that selects `length` characters from `location` in the
/// focused text element of the frontmost application.
pub open spec fn selection_script_text(location: int, length: int) -> Seq<char> {
    "tell application \"System Events\"\n    tell (first process whose frontmost is true)\n        try\n            set el to value of attribute \"AXFocusedUIElement\"\n            set value of attribute \"AXSelectedTextRange\" of el to {location:"@
        + signed_dec(location) + ", length:"@ + signed_dec(length)
        + "}\n        on error errMsg\n            error errMsg\n        end try\n    end tell\nend tell"@
}

/// Escapes the double quotes of `s` with backslashes.
pub fn escape_quotes_text(s: &str) -> (r: String)
    ensures
        r@ == escape_quotes(s@),
{
    let cs = chars_of(s);
    let mut r = String::new();
    let mut i: usize = 0;
    while i < cs.len()
        invariant
            i <= cs.len(),
            r@ == escape_quotes(cs@.take(i as int)),
        decreases cs.len() - i,
    {
        let c = cs[i];
        assert(cs@.take(i + 1).drop_last() =~= cs@.take(i as int));
        if c == '"' {
            push_char(&mut r, '\\');
            push_char(&mut r, '"');
            assert(escape_quotes(cs@.take(i as int)).push('\\').push('"') =~= escape_quotes(
                cs@.take(i as int),
            ) + seq!['\\', '"']);
        } else {
            push_char(&mut r, c);
        }
        i = i + 1;
    }
    assert(cs@.take(cs.len() as int) =~= cs@);
    r
}

/// The AppleScript that brings `app_name` to the front and pastes into it.
pub fn activate_script(app_name: &str) -> (r: String)
    ensures
        r@ == activate_script_text(app_name@),
{
    let mut r = String::from_str("tell application \"");
    r.append(escape_quotes_text(app_name).as_str());
    r.append(
        "\" to activate\ndelay 0.15\ntell application \"System Events\"\n    keystroke \"v\" using command down\nend tell",
    );
    r
}

/// The start and length of the range between two cursor positions.
pub fn selection_range(start: i64, end: i64) -> (r: (i64, i64))
    requires
        -i64::MAX <= end - start <= i64::MAX,
    ensures
        (r.0 as int, r.1 as int) == selection_bounds(start as int, end as int),
{
    if start <= end {
        (start, end - start)
    } else {
        (end, start - end)
    }
}

/// The AppleScript that selects the text between two cursor positions.
pub fn selection_script(start: i64, end: i64) -> (r: String)
    requires
        -i64::MAX <= end - start <= i64::MAX,
    ensures
        r@ == selection_script_text(
            selection_bounds(start as int, end as int).0,
            selection_bounds(start as int, end as int).1,
        ),
        r@ == "tell application \"System Events\"\n    tell (first process whose frontmost is true)\n        try\n            set el to value of attribute \"AXFocusedUIElement\"\n            set value of attribute \"AXSelectedTextRange\" of el to {location:"@
            + signed_dec(
            if start <= end {
                start as int
            } else {
                end as int
            },
        ) + ", length:"@ + signed_dec(
            if start <= end {
                end - start
            } else {
                start - end
            },
        )
            + "}\n        on error errMsg\n            error errMsg\n        end try\n    end tell\nend tell"@,
{
    let (location, length) = selection_range(start, end);
    let mut r = String::from_str(
        "tell application \"System Events\"\n    tell (first process whose frontmost is true)\n        try\n            set el to value of attribute \"AXFocusedUIElement\"\n            set value of attribute \"AXSelectedTextRange\" of el to {location:",
    );
    r.append(signed_decimal(location).as_str());
    r.append(", length:");
    r.append(signed_decimal(length).as_str());
    r.append(
        "}\n        on error errMsg\n            error errMsg\n        end try\n    end tell\nend tell",
    );
    r
}

/// The outcome of a script run that only has to succeed: on failure, `prefix`
/// followed by the trimmed error output.
pub fn script_status(success: bool, stderr: &str, prefix: &str) -> (r: Result<(), String>)
    ensures
        success ==> r is Ok,
        !success ==> (r matches Err(e) && e@ == prefix@ + trim(stderr@)),
{
    if success {
        Ok(())
    } else {
        Err(joined(prefix, trim_text(stderr).as_str()))
    }
}

/// The text read by the script that asks the frontmost application for its
/// selected text: the trimmed output on success; on failure the trimmed
/// error output after a fixed prefix, or a fixed message when it is empty.
pub fn direct_capture_output(success: bool, stdout: &str, stderr: &str) -> (r: Result<
    String,
    String,
>)
    ensures
        success ==> (r matches Ok(t) && t@ == trim(stdout@)),
        !success && trim(stderr@).len() == 0 ==> (r matches Err(e) && e@
            == "直接取得スクリプトが失敗しました。"@),
        !success && trim(stderr@).len() > 0 ==> (r matches Err(e) && e@ == "直接取得に失敗しました: "@
            + trim(stderr@)),
{
    if !success {
        let err = trim_text(stderr);
        if err.as_str().is_empty() {
            return Err(String::from_str("直接取得スクリプトが失敗しました。"));
        } else {
            return Err(joined("直接取得に失敗しました: ", err.as_str()));
        }
    }
    Ok(trim_text(stdout))
}

/// The selected text to keep from a direct read, if it holds anything but
/// whitespace: the text trimmed.
pub fn usable_direct_capture(direct: &Result<String, String>) -> (r: Option<String>)
    ensures
        match direct {
            Ok(t) => if trim(t@).len() > 0 {
                r matches Some(u) && u@ == trim(t@)
            } else {
                r is None
            },
            Err(_) => r is None,
        },
{
    match direct {
        Ok(text) => {
            let t = trim_text(text.as_str());
            if t.as_str().is_empty() {
                None
            } else {
                Some(t)
            }
        },
        Err(_) => None,
    }
}

/// The name of the frontmost application from the script that asks for it:
/// the trimmed output, when the script succeeded and the output is not blank.
pub fn frontmost_app_output(success: bool, stdout: &str) -> (r: Option<String>)
    ensures
        success && trim(stdout@).len() > 0 ==> (r matches Some(n) && n@ == trim(stdout@)),
        !(success && trim(stdout@).len() > 0) ==> r is None,
{
    if success {
        let name = trim_text(stdout);
        if name.as_str().is_empty() {
            None
        } else {
            Some(name)
        }
    } else {
        None
    }
}

/// The cursor position from the script that asks for it: the trimmed output
/// read as a number.
pub fn cursor_position_output(stdout: &str) -> (r: Result<i64, String>)
    ensures
        parsed_i64(trim(stdout@)) matches Some(p) ==> r == Ok::<i64, String>(p),
        parsed_i64(trim(stdout@)) is None ==> (r matches Err(e) && e@
            == "カーソル位置の解析に失敗しました。"@),
{
    let t = trim_text(stdout);
    match parse_i64(t.as_str()) {
        Some(p) => Ok(p),
        None => Err(String::from_str("カーソル位置の解析に失敗しました。")),
    }
}

} // verus!
