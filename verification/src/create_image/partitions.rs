//! Parsing the block-device lister's table into selectable whole-disk
//! entries.  The lister prints one device per line as space-separated
//! columns, with a header line starting with `NAME`; only rows whose second
//! column is `disk` become entries.

use vstd::prelude::*;
use vstd::string::*;

use crate::strings::{lines_of, lines_spec, split_char, split_spec, starts_with, str_eq,
    str_starts_with};
use crate::utils::{DeviceEntry, DeviceEntryView};

verus! {

/// The pieces of `ps` that are not empty, in order.
pub open spec fn nonempty_pieces(ps: Seq<Seq<char>>) -> Seq<Seq<char>>
    decreases ps.len(),
{
    if ps.len() == 0 {
        Seq::empty()
    } else if ps[0].len() > 0 {
        seq![ps[0]] + nonempty_pieces(ps.drop_first())
    } else {
        nonempty_pieces(ps.drop_first())
    }
}

/// The space-separated columns of one table line.
pub open spec fn ws_tokens(line: Seq<char>) -> Seq<Seq<char>> {
    nonempty_pieces(split_spec(line, ' '))
}

/// The entry one table line yields, if any: header lines and lines with
/// fewer than two columns yield none, and only a `disk` row becomes an
/// entry, valued `/dev/<name>`.
pub open spec fn parse_line(line: Seq<char>) -> Option<DeviceEntryView> {
    let toks = ws_tokens(line);
    if starts_with(line, "NAME"@) {
        None
    } else if toks.len() >= 2 && toks[1] == "disk"@ {
        Some(DeviceEntryView { label: toks[0], value: "/dev/"@ + toks[0] })
    } else {
        None
    }
}

/// The entries of all lines, in order.
pub open spec fn parse_lines(ls: Seq<Seq<char>>) -> Seq<DeviceEntryView>
    decreases ls.len(),
{
    if ls.len() == 0 {
        Seq::empty()
    } else {
        (match parse_line(ls[0]) {
            Some(e) => seq![e],
            None => Seq::empty(),
        }) + parse_lines(ls.drop_first())
    }
}

/// Split one table line into its space-separated columns, dropping the
/// padding between them.
pub fn ws_tokens_of(line: &str) -> (r: Vec<String>)
    ensures
        r.deep_view() == ws_tokens(line@),
{
    let pieces = split_char(line, ' ');
    let ghost pviews = split_spec(line@, ' ');
    let mut out: Vec<String> = Vec::new();
    let n = pieces.len();
    let mut j: usize = 0;
    proof {
        assert(pviews.skip(0) =~= pviews);
        assert(out.deep_view() =~= Seq::<Seq<char>>::empty());
        assert(Seq::<Seq<char>>::empty() + nonempty_pieces(pviews) =~= nonempty_pieces(pviews));
    }
    while j < n
        invariant
            n == pieces.len(),
            pieces.deep_view() == pviews,
            0 <= j <= n,
            nonempty_pieces(pviews) == out.deep_view() + nonempty_pieces(pviews.skip(j as int)),
        decreases n - j,
    {
        proof {
            assert(pviews.skip(j as int).drop_first() =~= pviews.skip(j + 1));
            assert(pviews.skip(j as int)[0] == pviews[j as int]);
            assert(pieces.deep_view()[j as int] == pieces[j as int]@);
        }
        if pieces[j].as_str().unicode_len() > 0 {
            let ghost old_out = out.deep_view();
            out.push(pieces[j].clone());
            proof {
                assert(out.deep_view() =~= old_out.push(pviews[j as int]));
                assert(old_out + (seq![pviews[j as int]] + nonempty_pieces(pviews.skip(j + 1)))
                    =~= old_out.push(pviews[j as int]) + nonempty_pieces(pviews.skip(j + 1)));
            }
        }
        j += 1;
    }
    proof {
        assert(pviews.skip(n as int) =~= Seq::<Seq<char>>::empty());
        assert(out.deep_view() + Seq::<Seq<char>>::empty() =~= out.deep_view());
    }
    out
}

/// Parse the block-device lister's table into the whole-disk entries it
/// shows, in order.
pub fn parse_device_list(stdout: &str) -> (r: Vec<DeviceEntry>)
    ensures
        r.deep_view() == parse_lines(lines_spec(stdout@)),
{
    let lines = lines_of(stdout);
    let ghost lviews = lines_spec(stdout@);
    let mut out: Vec<DeviceEntry> = Vec::new();
    let n = lines.len();
    let mut i: usize = 0;
    proof {
        assert(lviews.skip(0) =~= lviews);
        assert(out.deep_view() =~= Seq::<DeviceEntryView>::empty());
        assert(Seq::<DeviceEntryView>::empty() + parse_lines(lviews) =~= parse_lines(lviews));
    }
    while i < n
        invariant
            n == lines.len(),
            lines.deep_view() == lviews,
            0 <= i <= n,
            parse_lines(lviews) == out.deep_view() + parse_lines(lviews.skip(i as int)),
        decreases n - i,
    {
        proof {
            assert(lviews.skip(i as int).drop_first() =~= lviews.skip(i + 1));
            assert(lviews.skip(i as int)[0] == lviews[i as int]);
            assert(lines.deep_view()[i as int] == lines[i as int]@);
        }
        let header = str_starts_with(lines[i].as_str(), "NAME");
        if !header {
            let toks = ws_tokens_of(lines[i].as_str());
            proof {
                assert(toks.deep_view() == ws_tokens(lviews[i as int]));
            }
            if toks.len() >= 2 && str_eq(toks[1].as_str(), "disk") {
                proof {
                    assert(toks.deep_view()[1] == toks[1 as int]@);
                    assert(toks.deep_view()[0] == toks[0 as int]@);
                }
                let mut value = ("/dev/").to_owned();
                value.append(toks[0].as_str());
                let entry = DeviceEntry { label: toks[0].clone(), value };
                let ghost eview = parse_line(lviews[i as int]).unwrap();
                let ghost old_out = out.deep_view();
                out.push(entry);
                proof {
                    assert(out.deep_view() =~= old_out.push(eview));
                    assert(old_out + (seq![eview] + parse_lines(lviews.skip(i + 1))) =~= (
                    old_out.push(eview) + parse_lines(lviews.skip(i + 1))));
                }
            } else {
                proof {
                    assert(parse_line(lviews[i as int]) is None);
                    assert(Seq::<DeviceEntryView>::empty() + parse_lines(lviews.skip(i + 1))
                        =~= parse_lines(lviews.skip(i + 1)));
                }
            }
        } else {
            proof {
                assert(parse_line(lviews[i as int]) is None);
                assert(Seq::<DeviceEntryView>::empty() + parse_lines(lviews.skip(i + 1))
                    =~= parse_lines(lviews.skip(i + 1)));
            }
        }
        i += 1;
    }
    proof {
        assert(lviews.skip(n as int) =~= Seq::<Seq<char>>::empty());
        assert(out.deep_view() + Seq::<DeviceEntryView>::empty() =~= out.deep_view());
    }
    out
}

} // verus!
