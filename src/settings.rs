//! Reading the configured namespace list.
use vstd::prelude::*;
use vstd::string::*;
use crate::usage::names_view;

verus! {

/// The pieces of `s` between commas, in order; `s` without commas is one piece.
pub open spec fn split_commas(s: Seq<char>) -> Seq<Seq<char>>
    decreases s.len(),
{
    if s.len() == 0 {
        seq![seq![]]
    } else {
        let prev = split_commas(s.drop_last());
        if s.last() == ',' {
            prev.push(seq![])
        } else {
            prev.update(prev.len() - 1, prev.last().push(s.last()))
        }
    }
}

/// Splits a comma-separated namespace list. Pieces are kept as written,
/// spaces and empty pieces included.
pub fn parse_namespaces(list: &str) -> (r: Vec<String>)
    ensures
        names_view(r@) == split_commas(list@),
{
    let n = list.unicode_len();
    let mut done: Vec<String> = Vec::new();
    let mut start: usize = 0;
    let mut i: usize = 0;
    assert(names_view(done@) =~= Seq::<Seq<char>>::empty());
    assert(list@.subrange(0, 0) =~= Seq::<char>::empty());
    assert(names_view(done@).push(list@.subrange(0, 0)) =~= split_commas(list@.subrange(0, 0)));
    while i < n
        invariant
            n == list@.len(),
            start <= i <= n,
            split_commas(list@.subrange(0, i as int)) == names_view(done@).push(
                list@.subrange(start as int, i as int),
            ),
        decreases n - i,
    {
        let c = list.get_char(i);
        let ghost pre = list@.subrange(0, i as int + 1);
        assert(pre.drop_last() =~= list@.subrange(0, i as int));
        if c == ',' {
            let piece = list.substring_char(start, i).to_owned();
            let ghost before = names_view(done@);
            done.push(piece);
            assert(names_view(done@) =~= before.push(piece@));
            start = i + 1;
            assert(list@.subrange(start as int, i as int + 1) =~= Seq::<char>::empty());
        } else {
            assert(list@.subrange(start as int, i as int).push(c) =~= list@.subrange(
                start as int,
                i as int + 1,
            ));
        }
        i = i + 1;
    }
    assert(list@.subrange(0, n as int) =~= list@);
    let last = list.substring_char(start, n).to_owned();
    let ghost before = names_view(done@);
    done.push(last);
    assert(names_view(done@) =~= before.push(last@));
    done
}

/// The configuration file used when none is requested or the requested one is missing.
pub const DEFAULT_CONFIG_PATH: &'static str = "./Config";

/// The configuration file to read: the requested one when it exists, else the default.
pub open spec fn chosen_config_path(requested: Option<Seq<char>>, requested_exists: bool) -> Seq<char> {
    match requested {
        Some(p) => if requested_exists { p } else { DEFAULT_CONFIG_PATH@ },
        None => DEFAULT_CONFIG_PATH@,
    }
}

/// Picks the configuration file; `requested_exists` tells whether the
/// requested file is present.
pub fn config_file_path(requested: Option<String>, requested_exists: bool) -> (r: String)
    ensures
        r@ == chosen_config_path(
            match requested {
                Some(p) => Some(p@),
                None => None,
            },
            requested_exists,
        ),
{
    match requested {
        Some(p) => if requested_exists { p } else { DEFAULT_CONFIG_PATH.to_owned() },
        None => DEFAULT_CONFIG_PATH.to_owned(),
    }
}

} // verus!
