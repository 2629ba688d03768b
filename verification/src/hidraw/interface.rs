//! The interface number that a sysfs path names.

use crate::error::{Error, ErrorView, Result};
use crate::scan::{
    chars_of, find_in, find_spec, parse_i32_in, parse_i32_spec, rfind_in, rfind_spec,
};
use vstd::prelude::*;
use vstd::string::*;

verus! {

/// The interface number of a path segment of the form
/// `<bus-id>:<config>.<interface>`: after the last `:` of the segment, the
/// text up to the first `.` is the configuration and the text after it the
/// interface, both decimal numbers. Nothing for a segment of another form.
pub open spec fn segment_interface(segment: Seq<char>) -> Option<i32> {
    match rfind_spec(segment, ':') {
        None => None,
        Some(colon) => {
            let tail = segment.skip(colon + 1);
            match find_spec(tail, '.') {
                None => None,
                Some(dot) => if parse_i32_spec(tail.take(dot)) is Some {
                    parse_i32_spec(tail.skip(dot + 1))
                } else {
                    None
                },
            }
        },
    }
}

/// The segments of a path: the texts between its `/` characters.
pub open spec fn segments(path: Seq<char>) -> Seq<Seq<char>>
    decreases path.len(),
{
    if path.len() == 0 {
        seq![Seq::<char>::empty()]
    } else {
        let before = segments(path.drop_last());
        if path.last() == '/' {
            before.push(Seq::<char>::empty())
        } else {
            before.drop_last().push(before.last().push(path.last()))
        }
    }
}

/// The interface number of the first segment that has one.
pub open spec fn first_interface(segments: Seq<Seq<char>>) -> Option<i32>
    decreases segments.len(),
{
    if segments.len() == 0 {
        None
    } else {
        match segment_interface(segments.first()) {
            Some(n) => Some(n),
            None => first_interface(segments.drop_first()),
        }
    }
}

/// The interface number that a path names: that of its first segment of
/// the form `<bus-id>:<config>.<interface>`.
pub open spec fn interface_of(path: Seq<char>) -> Option<i32> {
    first_interface(segments(path))
}

/// The interface number of a list of segments with one more at its end:
/// that of the list where it has one, else that of the added segment.
proof fn lemma_first_interface_push(before: Seq<Seq<char>>, segment: Seq<char>)
    ensures
        first_interface(before.push(segment)) == if first_interface(before) is Some {
            first_interface(before)
        } else {
            segment_interface(segment)
        },
    decreases before.len(),
{
    let all = before.push(segment);
    if before.len() == 0 {
        assert(all.drop_first() =~= Seq::<Seq<char>>::empty());
    } else {
        assert(all.first() == before.first());
        assert(all.drop_first() =~= before.drop_first().push(segment));
        lemma_first_interface_push(before.drop_first(), segment);
    }
}

/// The interface number of `chars[from..to]` taken as one segment.
fn segment_interface_in(chars: &Vec<char>, from: usize, to: usize) -> (r: Option<i32>)
    requires
        from <= to <= chars@.len(),
    ensures
        r == segment_interface(chars@.subrange(from as int, to as int)),
{
    let ghost segment = chars@.subrange(from as int, to as int);
    match rfind_in(chars, from, to, ':') {
        None => None,
        Some(colon) => {
            let tail_from = from + colon + 1;
            let ghost tail = segment.skip(colon + 1);
            assert(tail =~= chars@.subrange(tail_from as int, to as int));
            match find_in(chars, tail_from, to, '.') {
                None => None,
                Some(dot) => {
                    assert(tail.take(dot as int) =~= chars@.subrange(
                        tail_from as int,
                        tail_from + dot,
                    ));
                    assert(tail.skip(dot + 1) =~= chars@.subrange(
                        tail_from + dot + 1,
                        to as int,
                    ));
                    match parse_i32_in(chars, tail_from, tail_from + dot) {
                        None => None,
                        Some(_) => parse_i32_in(chars, tail_from + dot + 1, to),
                    }
                },
            }
        },
    }
}

/// Get the interface number from the device path
///
/// The interface number stands in a path segment like `1-1.4:1.0`: it is
/// the number after the dot that follows the last colon. The first segment
/// of that form decides; a path without one is a parse error.
pub fn get_interface_number(device_path: &str) -> (r: Result<i32>)
    ensures
        match r {
            Ok(n) => interface_of(device_path@) == Some(n),
            Err(e) => interface_of(device_path@) is None && e@ == ErrorView::Parse(
                "Could not determine interface number"@,
            ),
        },
{
    let chars = chars_of(device_path);
    let n = chars.len();
    let mut found: Option<i32> = None;
    let mut start: usize = 0;
    let mut i: usize = 0;
    let ghost mut done: Seq<Seq<char>> = Seq::empty();
    assert(chars@.take(0) =~= Seq::<char>::empty());
    assert(done.push(chars@.subrange(0, 0)) =~= segments(chars@.take(0)));
    while i < n
        invariant
            start <= i <= n,
            n == chars@.len(),
            first_interface(done) == found,
            segments(chars@.take(i as int)) == done.push(
                chars@.subrange(start as int, i as int),
            ),
        decreases n - i,
    {
        let ghost prefix = chars@.take(i as int);
        let ghost longer = chars@.take(i + 1);
        let ghost current = chars@.subrange(start as int, i as int);
        assert(longer.drop_last() =~= prefix);
        assert(longer.last() == chars@[i as int]);
        if chars[i] == '/' {
            proof {
                lemma_first_interface_push(done, current);
            }
            if found.is_none() {
                found = segment_interface_in(&chars, start, i);
            }
            proof {
                done = done.push(current);
            }
            start = i + 1;
            assert(chars@.subrange(start as int, i + 1) =~= Seq::<char>::empty());
        } else {
            assert(done.push(current).drop_last() =~= done);
            assert(current.push(chars@[i as int]) =~= chars@.subrange(start as int, i + 1));
        }
        i = i + 1;
    }
    assert(chars@.take(n as int) =~= chars@);
    proof {
        lemma_first_interface_push(done, chars@.subrange(start as int, n as int));
    }
    if found.is_none() {
        found = segment_interface_in(&chars, start, n);
    }
    match found {
        Some(number) => Ok(number),
        None => Err(Error::Parse(String::from_str("Could not determine interface number"))),
    }
}

} // verus!
