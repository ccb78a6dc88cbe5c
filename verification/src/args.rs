//! Reading the arguments of a command that is to be previewed. Arguments are
//! read left to right; a flag that takes a value uses up the argument behind
//! it, and what is not recognised is passed over.

use vstd::prelude::*;
use vstd::string::*;
use crate::text::{contains_text, same_text, texts};

verus! {

/// The value given for one of the flags `wanted`, reading `args` from the
/// left: the last one given, or `found` where there is none. `takers` holds
/// every flag that takes a value; such a flag in last place takes none.
pub open spec fn option_scan(
    args: Seq<Seq<char>>,
    takers: Seq<Seq<char>>,
    wanted: Seq<Seq<char>>,
    found: Option<Seq<char>>,
) -> Option<Seq<char>>
    decreases args.len(),
{
    if args.len() == 0 {
        found
    } else if takers.contains(args[0]) && args.len() >= 2 {
        option_scan(
            args.skip(2),
            takers,
            wanted,
            if wanted.contains(args[0]) {
                Some(args[1])
            } else {
                found
            },
        )
    } else {
        option_scan(args.skip(1), takers, wanted, found)
    }
}

/// The value given for one of the flags `wanted`, if any.
pub open spec fn option_value(
    args: Seq<Seq<char>>,
    takers: Seq<Seq<char>>,
    wanted: Seq<Seq<char>>,
) -> Option<Seq<char>> {
    option_scan(args, takers, wanted, None)
}

/// Whether the switch `name` is given, reading `args` from the left: an
/// argument used up as a value is no switch.
pub open spec fn switch_scan(
    args: Seq<Seq<char>>,
    takers: Seq<Seq<char>>,
    name: Seq<char>,
    found: bool,
) -> bool
    decreases args.len(),
{
    if args.len() == 0 {
        found
    } else if takers.contains(args[0]) && args.len() >= 2 {
        switch_scan(args.skip(2), takers, name, found)
    } else {
        switch_scan(args.skip(1), takers, name, found || args[0] == name)
    }
}

/// Whether the switch `name` is given.
pub open spec fn switch_given(args: Seq<Seq<char>>, takers: Seq<Seq<char>>, name: Seq<char>) -> bool {
    switch_scan(args, takers, name, false)
}

/// Reads the value of an option from the arguments.
pub fn option_of(args: &Vec<String>, takers: &Vec<String>, wanted: &Vec<String>) -> (r: Option<
    String,
>)
    ensures
        crate::text::opt_text(r) == option_value(texts(args@), texts(takers@), texts(wanted@)),
{
    let ghost all = texts(args@);
    let mut found: Option<String> = None;
    let mut i: usize = 0;
    assert(all.skip(0) =~= all);
    while i < args.len()
        invariant
            i <= args.len(),
            all == texts(args@),
            option_value(all, texts(takers@), texts(wanted@)) == option_scan(
                all.skip(i as int),
                texts(takers@),
                texts(wanted@),
                crate::text::opt_text(found),
            ),
        decreases args.len() - i,
    {
        let ghost rest = all.skip(i as int);
        assert(rest[0] == args@[i as int]@);
        if contains_text(takers, args[i].as_str()) && args.len() - i >= 2 {
            assert(rest[1] == args@[i as int + 1]@);
            assert(rest.skip(2) =~= all.skip(i as int + 2));
            if contains_text(wanted, args[i].as_str()) {
                found = Some(args[i + 1].clone());
            }
            i += 2;
        } else {
            assert(rest.skip(1) =~= all.skip(i as int + 1));
            i += 1;
        }
    }
    assert(all.skip(args.len() as int).len() == 0);
    found
}

/// Reads a switch from the arguments.
pub fn switch_of(args: &Vec<String>, takers: &Vec<String>, name: &str) -> (r: bool)
    ensures
        r == switch_given(texts(args@), texts(takers@), name@),
{
    let ghost all = texts(args@);
    let mut found = false;
    let mut i: usize = 0;
    assert(all.skip(0) =~= all);
    while i < args.len()
        invariant
            i <= args.len(),
            all == texts(args@),
            switch_given(all, texts(takers@), name@) == switch_scan(
                all.skip(i as int),
                texts(takers@),
                name@,
                found,
            ),
        decreases args.len() - i,
    {
        let ghost rest = all.skip(i as int);
        assert(rest[0] == args@[i as int]@);
        if contains_text(takers, args[i].as_str()) && args.len() - i >= 2 {
            assert(rest.skip(2) =~= all.skip(i as int + 2));
            i += 2;
        } else {
            assert(rest.skip(1) =~= all.skip(i as int + 1));
            if same_text(args[i].as_str(), name) {
                found = true;
            }
            i += 1;
        }
    }
    assert(all.skip(args.len() as int).len() == 0);
    found
}

} // verus!
