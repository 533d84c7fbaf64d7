use vstd::prelude::*;

use crate::text::{split_at_char, split_on, strings_view};
use vstd::string::StringExecFns;

verus! {

/// The message for a `KEY=value` item that does not split in two at `=`.
pub open spec fn kv_error(input: Seq<char>) -> Seq<char> {
    "invalid KEY=value: no `=` found in `"@ + input + "`"@
}

/// A `KEY=value` item: the text before and after its one `=`; an item with
/// no `=`, or with more than one, is an error.
pub open spec fn key_value(input: Seq<char>) -> Result<(Seq<char>, Seq<char>), Seq<char>> {
    let p = split_on(input, '=');
    if p.len() == 2 {
        Ok((p[0], p[1]))
    } else {
        Err(kv_error(input))
    }
}

/// The pairs of a sequence of items, in order, or the error of the first
/// item that is not one.
pub open spec fn label_pairs(items: Seq<Seq<char>>) -> Result<Seq<(Seq<char>, Seq<char>)>, Seq<char>>
    decreases items.len(),
{
    if items.len() == 0 {
        Ok(seq![])
    } else {
        match label_pairs(items.drop_last()) {
            Err(e) => Err(e),
            Ok(ps) => match key_value(items.last()) {
                Ok(p) => Ok(ps.push(p)),
                Err(e) => Err(e),
            },
        }
    }
}

/// The labels of a text of comma-separated `KEY=value` items.
pub open spec fn common_labels(input: Seq<char>) -> Result<Seq<(Seq<char>, Seq<char>)>, Seq<char>> {
    label_pairs(split_on(input, ','))
}

/// The views of a sequence of pairs of strings.
pub open spec fn pairs_view(v: Seq<(String, String)>) -> Seq<(Seq<char>, Seq<char>)> {
    v.map_values(|p: (String, String)| (p.0@, p.1@))
}

/// Splits one `KEY=value` item.
pub fn key_value_parser(input: &str) -> (r: Result<(String, String), String>)
    ensures
        match r {
            Ok(p) => key_value(input@) == Ok::<(Seq<char>, Seq<char>), Seq<char>>((p.0@, p.1@)),
            Err(e) => key_value(input@) == Err::<(Seq<char>, Seq<char>), Seq<char>>(e@),
        },
{
    let pair = split_at_char(input, '=');
    if pair.len() == 2 {
        Ok((pair[0].clone(), pair[1].clone()))
    } else {
        let msg = String::from_str("invalid KEY=value: no `=` found in `").concat(input).concat("`");
        Err(msg)
    }
}

/// Reads the labels that every metric carries, from comma-separated
/// `KEY=value` items, in order.
pub fn parse_common_labels(value: &str) -> (r: Result<Vec<(String, String)>, String>)
    ensures
        match r {
            Ok(v) => common_labels(value@) == Ok::<Seq<(Seq<char>, Seq<char>)>, Seq<char>>(
                pairs_view(v@),
            ),
            Err(e) => common_labels(value@) == Err::<Seq<(Seq<char>, Seq<char>)>, Seq<char>>(e@),
        },
{
    let items = split_at_char(value, ',');
    let ghost all = strings_view(items@);
    let mut out: Vec<(String, String)> = Vec::new();
    assert(all.subrange(0, 0) =~= seq![]);
    assert(pairs_view(out@) =~= seq![]);
    let mut i: usize = 0;
    while i < items.len()
        invariant
            i <= items@.len(),
            all == strings_view(items@),
            all == split_on(value@, ','),
            label_pairs(all.subrange(0, i as int)) == Ok::<
                Seq<(Seq<char>, Seq<char>)>,
                Seq<char>,
            >(pairs_view(out@)),
        decreases items@.len() - i,
    {
        let ghost pre = all.subrange(0, i as int + 1);
        assert(pre.drop_last() =~= all.subrange(0, i as int));
        assert(pre.last() == items@[i as int]@);
        match key_value_parser(items[i].as_str()) {
            Ok(p) => {
                let ghost before = out@;
                out.push(p);
                assert(pairs_view(out@) =~= pairs_view(before).push((p.0@, p.1@)));
            },
            Err(e) => {
                proof {
                    lemma_error_stays(all, i as int + 1);
                }
                return Err(e);
            },
        }
        i = i + 1;
    }
    assert(all.subrange(0, items@.len() as int) =~= all);
    Ok(out)
}

/// Once a prefix of the items is an error, every longer prefix is the same
/// error.
proof fn lemma_error_stays(items: Seq<Seq<char>>, n: int)
    requires
        0 < n <= items.len(),
        label_pairs(items.subrange(0, n)) is Err,
    ensures
        label_pairs(items) == label_pairs(items.subrange(0, n)),
    decreases items.len() - n,
{
    if n == items.len() {
        assert(items.subrange(0, n) =~= items);
    } else {
        let longer = items.subrange(0, n + 1);
        assert(longer.drop_last() =~= items.subrange(0, n));
        lemma_error_stays(items, n + 1);
    }
}

/// The parser of the common-labels option.
#[derive(Clone, Copy, Debug)]
pub struct MapValueParser {}

impl MapValueParser {
    /// A parser.
    pub fn new() -> Self {
        Self {}
    }

    /// Reads comma-separated `KEY=value` items into labels.
    pub fn parse(&self, value: &str) -> (r: Result<Vec<(String, String)>, String>)
        ensures
            match r {
                Ok(v) => common_labels(value@) == Ok::<Seq<(Seq<char>, Seq<char>)>, Seq<char>>(
                    pairs_view(v@),
                ),
                Err(e) => common_labels(value@) == Err::<Seq<(Seq<char>, Seq<char>)>, Seq<char>>(
                    e@,
                ),
            },
    {
        parse_common_labels(value)
    }
}

} // verus!
