//! Recognising the game's process among the entries of `/proc`: a directory
//! named by a process id whose executable has the game's name.
use vstd::prelude::*;

use crate::process::scan::chars_of;

verus! {

/// Whether `c` is one of the digits `0` to `9`.
pub open spec fn is_decimal_digit(c: char) -> bool {
    0x30 <= c as u32 <= 0x39
}

/// The value of a sequence of decimal digits.
pub open spec fn decimal_value(digits: Seq<char>) -> nat
    decreases digits.len(),
{
    if digits.len() == 0 {
        0
    } else {
        decimal_value(digits.drop_last()) * 10 + (digits.last() as u32 - 0x30) as nat
    }
}

/// The process id that a directory name writes: at least one decimal digit
/// and nothing else, with a value that fits in an `i32`.
pub open spec fn spec_parse_pid(name: Seq<char>) -> Option<i32> {
    if name.len() > 0 && (forall|i: int| 0 <= i < name.len() ==> is_decimal_digit(#[trigger] name[i]))
        && decimal_value(name) <= i32::MAX {
        Some(decimal_value(name) as i32)
    } else {
        None
    }
}

/// The process id that a directory name of `/proc` writes, if it writes one.
pub fn parse_pid(name: &str) -> (pid: Option<i32>)
    ensures
        pid == spec_parse_pid(name@),
{
    let chars = chars_of(name);
    if chars.len() == 0 {
        return None;
    }
    let mut value: u32 = 0;
    let mut fits = true;
    let mut i: usize = 0;
    while i < chars.len()
        invariant
            chars@ == name@,
            i <= chars@.len(),
            forall|k: int| 0 <= k < i ==> is_decimal_digit(#[trigger] chars@[k]),
            fits ==> value == decimal_value(chars@.take(i as int)) && value <= i32::MAX,
            !fits ==> decimal_value(chars@.take(i as int)) > i32::MAX,
        decreases chars@.len() - i,
    {
        let ghost prefix = chars@.take(i as int);
        let ghost next = chars@.take(i + 1);
        assert(next.drop_last() =~= prefix);
        let c = chars[i] as u32;
        if c < 0x30 || c > 0x39 {
            return None;
        }
        let d = c - 0x30;
        assert(decimal_value(next) == decimal_value(prefix) * 10 + d);
        if fits {
            if value > (0x7fff_ffff - d) / 10 {
                fits = false;
                assert(decimal_value(next) > i32::MAX) by (nonlinear_arith)
                    requires
                        decimal_value(next) == value * 10 + d,
                        value > (0x7fff_ffff - d) / 10,
                        d < 10,
                ;
            } else {
                assert(value * 10 + d <= i32::MAX) by (nonlinear_arith)
                    requires
                        value <= (0x7fff_ffff - d) / 10,
                        d < 10,
                ;
                value = value * 10 + d;
            }
        } else {
            assert(decimal_value(next) > i32::MAX) by (nonlinear_arith)
                requires
                    decimal_value(next) == decimal_value(prefix) * 10 + d,
                    decimal_value(prefix) > i32::MAX,
            ;
        }
        i += 1;
    }
    assert(chars@.take(chars@.len() as int) =~= chars@);
    if fits {
        Some(value as i32)
    } else {
        None
    }
}

/// What follows the last `/` of a path; the whole path where it has none.
pub open spec fn after_last_slash(path: Seq<char>) -> Seq<char>
    decreases path.len(),
{
    if path.len() == 0 {
        path
    } else if path.last() == '/' {
        Seq::empty()
    } else {
        after_last_slash(path.drop_last()).push(path.last())
    }
}

/// Whether the executable at `exe_path` is named `process_name`: the part of
/// the path after its last `/` is that name. `None` for a path without `/`.
pub fn exe_name_is(exe_path: &str, process_name: &str) -> (r: Option<bool>)
    ensures
        r == if exe_path@.contains('/') {
            Some(after_last_slash(exe_path@) == process_name@)
        } else {
            None
        },
{
    let path = chars_of(exe_path);
    let name = chars_of(process_name);
    let mut i = path.len();
    assert(path@.take(i as int) =~= path@);
    assert(path@.subrange(i as int, path@.len() as int) =~= Seq::<char>::empty());
    assert(after_last_slash(path@) =~= after_last_slash(path@.take(i as int)) + path@.subrange(
        i as int,
        path@.len() as int,
    ));
    while i > 0 && path[i - 1] != '/'
        invariant
            path@ == exe_path@,
            i <= path@.len(),
            after_last_slash(path@) == after_last_slash(path@.take(i as int)) + path@.subrange(
                i as int,
                path@.len() as int,
            ),
            forall|k: int| i <= k < path@.len() ==> path@[k] != '/',
        decreases i,
    {
        let ghost prefix = path@.take(i as int);
        assert(prefix.drop_last() =~= path@.take(i - 1));
        assert(after_last_slash(path@.take(i - 1)) + path@.subrange(i - 1, path@.len() as int) =~= after_last_slash(
            path@.take(i - 1),
        ).push(prefix.last()) + path@.subrange(i as int, path@.len() as int));
        i -= 1;
    }
    if i == 0 {
        assert(!exe_path@.contains('/')) by {
            if exe_path@.contains('/') {
                let k = choose|k: int| 0 <= k < exe_path@.len() && exe_path@[k] == '/';
                assert(path@[k] == '/');
            }
        }
        return None;
    }
    assert(exe_path@[i - 1] == '/');
    assert(exe_path@.contains('/'));
    assert(after_last_slash(path@.take(i as int)) =~= Seq::<char>::empty()) by {
        assert(path@.take(i as int).last() == '/');
    }
    let ghost tail = path@.subrange(i as int, path@.len() as int);
    assert(after_last_slash(path@) =~= tail);
    if path.len() - i != name.len() {
        return Some(false);
    }
    let mut j: usize = 0;
    while j < name.len()
        invariant
            path@ == exe_path@,
            name@ == process_name@,
            0 < i <= path@.len(),
            path@.len() - i == name@.len(),
            tail == path@.subrange(i as int, path@.len() as int),
            after_last_slash(exe_path@) == tail,
            exe_path@.contains('/'),
            j <= name@.len(),
            forall|k: int| 0 <= k < j ==> tail[k] == name@[k],
        decreases name@.len() - j,
    {
        assert(i + j < path@.len());
        if path[i + j] != name[j] {
            assert(tail[j as int] != name@[j as int]);
            assert(tail != name@);
            return Some(false);
        }
        j += 1;
    }
    assert(tail =~= name@);
    Some(true)
}

} // verus!
