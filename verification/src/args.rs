//! Tiny `--flag value` pair parser. The command-line surface is small
//! and stable enough that a full argument-parser dependency would
//! carry more weight than it earns.

use vstd::prelude::*;

use crate::abi::strings_view;
use crate::text::{concat2, concat3, is_flag_word, starts_with_dashes, str_eq};

verus! {

/// The name a `--name` word gives its flag.
pub open spec fn flag_name(word: Seq<char>) -> Seq<char> {
    word.skip(2)
}

/// Reading `--name value` pairs from position `i` on, on top of the
/// flags `acc` read so far; a later pair for a name replaces an
/// earlier one.
pub open spec fn parse_flags_from(
    args: Seq<Seq<char>>,
    i: int,
    acc: Map<Seq<char>, Seq<char>>,
) -> Result<Map<Seq<char>, Seq<char>>, Seq<char>>
    decreases args.len() - i,
{
    if i < 0 || i >= args.len() {
        Ok(acc)
    } else if !is_flag_word(args[i]) {
        Err("unexpected positional argument: "@ + args[i])
    } else if i + 1 >= args.len() {
        Err("flag "@ + args[i] + " expects a value"@)
    } else {
        parse_flags_from(args, i + 2, acc.insert(flag_name(args[i]), args[i + 1]))
    }
}

/// The flags that an argument list sets, or the message for the first
/// word that is out of place.
pub open spec fn parse_flags(args: Seq<Seq<char>>) -> Result<Map<Seq<char>, Seq<char>>, Seq<char>> {
    parse_flags_from(args, 0, Map::empty())
}

proof fn lemma_parse_flags_from_append(
    args: Seq<Seq<char>>,
    tail: Seq<Seq<char>>,
    i: int,
    acc: Map<Seq<char>, Seq<char>>,
)
    requires
        0 <= i <= args.len(),
        (args.len() - i) % 2 == 0,
    ensures
        parse_flags_from(args + tail, i, acc) == match parse_flags_from(args, i, acc) {
            Ok(m) => parse_flags_from(args + tail, args.len() as int, m),
            Err(e) => Err(e),
        },
    decreases args.len() - i,
{
    let all = args + tail;
    if i < args.len() {
        assert(all[i] == args[i]);
        assert(all[i + 1] == args[i + 1]);
        lemma_parse_flags_from_append(args, tail, i + 2, acc.insert(flag_name(args[i]), args[i + 1]));
    }
}

/// A name given again at the end of a well-formed argument list takes
/// the value given with it there: the last value given for a name is the
/// one that counts.
pub proof fn law_last_flag_wins(args: Seq<Seq<char>>, word: Seq<char>, value: Seq<char>)
    requires
        parse_flags(args) is Ok,
        is_flag_word(word),
    ensures
        parse_flags(args + seq![word, value]) == Ok::<Map<Seq<char>, Seq<char>>, Seq<char>>(
            parse_flags(args)->Ok_0.insert(flag_name(word), value),
        ),
{
    let tail = seq![word, value];
    let all = args + tail;
    lemma_parse_flags_ok_even(args, 0, Map::empty());
    lemma_parse_flags_from_append(args, tail, 0, Map::empty());
    let m = parse_flags(args)->Ok_0;
    assert(all[args.len() as int] == word);
    assert(all[args.len() as int + 1] == value);
    assert(parse_flags_from(all, args.len() as int + 2, m.insert(flag_name(word), value)) == Ok::<
        Map<Seq<char>, Seq<char>>,
        Seq<char>,
    >(m.insert(flag_name(word), value)));
}

proof fn lemma_parse_flags_ok_even(args: Seq<Seq<char>>, i: int, acc: Map<Seq<char>, Seq<char>>)
    requires
        0 <= i <= args.len(),
        parse_flags_from(args, i, acc) is Ok,
    ensures
        (args.len() - i) % 2 == 0,
    decreases args.len() - i,
{
    if i < args.len() {
        lemma_parse_flags_ok_even(args, i + 2, acc.insert(flag_name(args[i]), args[i + 1]));
    }
}

/// Position `k` of the argument list holds a flag word that names `n`.
pub open spec fn names_flag_at(args: Seq<Seq<char>>, k: int, n: Seq<char>) -> bool {
    0 <= k < args.len() && k % 2 == 0 && is_flag_word(args[k]) && flag_name(args[k]) == n
}

proof fn lemma_flag_occurrences(
    args: Seq<Seq<char>>,
    i: int,
    acc: Map<Seq<char>, Seq<char>>,
    n: Seq<char>,
)
    requires
        0 <= i <= args.len(),
        i % 2 == 0,
        parse_flags_from(args, i, acc) is Ok,
    ensures
        ({
            let m = parse_flags_from(args, i, acc)->Ok_0;
            &&& (forall|k: int| i <= k ==> !names_flag_at(args, k, n)) ==> (m.contains_key(n)
                == acc.contains_key(n) && (acc.contains_key(n) ==> m[n] == acc[n]))
            &&& forall|k: int|
                #![trigger names_flag_at(args, k, n)]
                i <= k && names_flag_at(args, k, n) && (forall|j: int|
                    k < j ==> !names_flag_at(args, j, n)) ==> k + 1 < args.len() && m.contains_key(n)
                    && m[n] == args[k + 1]
        }),
    decreases args.len() - i,
{
    if i < args.len() {
        let acc2 = acc.insert(flag_name(args[i]), args[i + 1]);
        lemma_flag_occurrences(args, i + 2, acc2, n);
        let m = parse_flags_from(args, i, acc)->Ok_0;
        assert(m == parse_flags_from(args, i + 2, acc2)->Ok_0);
        assert forall|k: int|
            #![trigger names_flag_at(args, k, n)]
            i <= k && names_flag_at(args, k, n) && (forall|j: int|
                k < j ==> !names_flag_at(args, j, n)) implies k + 1 < args.len() && m.contains_key(n)
            && m[n] == args[k + 1] by {
            if k == i {
                assert forall|k2: int| i + 2 <= k2 implies !names_flag_at(args, k2, n) by {
                    assert(k < k2);
                }
            } else {
                assert(k != i + 1);
            }
        }
        if forall|k: int| i <= k ==> !names_flag_at(args, k, n) {
            assert(!names_flag_at(args, i, n));
            assert forall|k: int| i + 2 <= k implies !names_flag_at(args, k, n) by {
                assert(i <= k);
            }
        }
    }
}

/// Over a whole argument list that parses: a name that no flag word
/// names is not set, and a name is set to the value that follows its
/// last occurrence.
pub proof fn law_flag_value_is_last_occurrence(args: Seq<Seq<char>>, n: Seq<char>)
    requires
        parse_flags(args) is Ok,
    ensures
        (forall|k: int| !names_flag_at(args, k, n)) ==> !(parse_flags(args)->Ok_0).contains_key(n),
        forall|k: int|
            #![trigger names_flag_at(args, k, n)]
            names_flag_at(args, k, n) && (forall|j: int| k < j ==> !names_flag_at(args, j, n))
                ==> k + 1 < args.len() && (parse_flags(args)->Ok_0).contains_key(n) && (parse_flags(
                args,
            )->Ok_0)[n] == args[k + 1],
{
    lemma_flag_occurrences(args, 0, Map::empty(), n);
    if forall|k: int| !names_flag_at(args, k, n) {
        assert forall|k: int| 0 <= k implies !names_flag_at(args, k, n) by {}
    }
}

/// A flag's name is its word without the leading `--`.
pub proof fn law_flag_name_is_word_after_dashes(word: Seq<char>)
    requires
        is_flag_word(word),
    ensures
        seq!['-', '-'] + flag_name(word) == word,
{
    assert(seq!['-', '-'] + flag_name(word) =~= word);
}

proof fn lemma_parse_ok_shape(args: Seq<Seq<char>>, i: int, acc: Map<Seq<char>, Seq<char>>)
    requires
        0 <= i <= args.len(),
        i % 2 == 0,
    ensures
        parse_flags_from(args, i, acc) is Ok <==> (args.len() % 2 == 0 && forall|k: int|
            i <= k < args.len() && k % 2 == 0 ==> is_flag_word(#[trigger] args[k])),
    decreases args.len() - i,
{
    if i + 1 < args.len() {
        lemma_parse_ok_shape(args, i + 2, acc.insert(flag_name(args[i]), args[i + 1]));
        if args.len() % 2 == 0 && forall|k: int|
            i + 2 <= k < args.len() && k % 2 == 0 ==> is_flag_word(#[trigger] args[k]) {
            if is_flag_word(args[i]) {
                assert forall|k: int| i <= k < args.len() && k % 2 == 0 implies is_flag_word(
                    #[trigger] args[k],
                ) by {
                    if k != i {
                        assert(i + 2 <= k);
                    }
                }
            }
        }
    }
}

/// An argument list parses exactly when it is a run of pairs whose first
/// words all start with `--`.
pub proof fn law_parse_accepts_exactly_pairs(args: Seq<Seq<char>>)
    ensures
        parse_flags(args) is Ok <==> (args.len() % 2 == 0 && forall|k: int|
            0 <= k < args.len() && k % 2 == 0 ==> is_flag_word(#[trigger] args[k])),
{
    lemma_parse_ok_shape(args, 0, Map::empty());
}

/// The flags given on the command line, each name with its value.
pub struct Flags {
    pairs: Vec<(String, String)>,
}

pub open spec fn pairs_map(ps: Seq<(String, String)>) -> Map<Seq<char>, Seq<char>>
    decreases ps.len(),
{
    if ps.len() == 0 {
        Map::empty()
    } else {
        pairs_map(ps.drop_last()).insert(ps.last().0@, ps.last().1@)
    }
}

pub open spec fn keys_distinct(ps: Seq<(String, String)>) -> bool {
    forall|i: int, j: int| 0 <= i < j < ps.len() ==> (#[trigger] ps[i]).0@ != (#[trigger] ps[j]).0@
}

impl View for Flags {
    type V = Map<Seq<char>, Seq<char>>;

    closed spec fn view(&self) -> Map<Seq<char>, Seq<char>> {
        pairs_map(self.pairs@)
    }
}

proof fn lemma_pairs_map_lookup(ps: Seq<(String, String)>, k: int)
    requires
        keys_distinct(ps),
        0 <= k < ps.len(),
    ensures
        pairs_map(ps).contains_key(ps[k].0@),
        pairs_map(ps)[ps[k].0@] == ps[k].1@,
    decreases ps.len(),
{
    if k < ps.len() - 1 {
        assert(ps.drop_last()[k] == ps[k]);
        lemma_pairs_map_lookup(ps.drop_last(), k);
        assert(ps[k].0@ != ps[ps.len() - 1].0@);
    }
}

proof fn lemma_pairs_map_absent(ps: Seq<(String, String)>, key: Seq<char>)
    requires
        forall|j: int| 0 <= j < ps.len() ==> (#[trigger] ps[j]).0@ != key,
    ensures
        !pairs_map(ps).contains_key(key),
    decreases ps.len(),
{
    if ps.len() > 0 {
        assert forall|j: int| 0 <= j < ps.drop_last().len() implies (
        #[trigger] ps.drop_last()[j]).0@ != key by {
            assert(ps.drop_last()[j] == ps[j]);
        }
        lemma_pairs_map_absent(ps.drop_last(), key);
        assert(ps.last() == ps[ps.len() - 1]);
    }
}

proof fn lemma_pairs_map_update(ps: Seq<(String, String)>, k: int, p: (String, String))
    requires
        keys_distinct(ps),
        0 <= k < ps.len(),
        ps[k].0@ == p.0@,
    ensures
        pairs_map(ps.update(k, p)) =~= pairs_map(ps).insert(p.0@, p.1@),
    decreases ps.len(),
{
    let qs = ps.update(k, p);
    if k == ps.len() - 1 {
        assert(qs.drop_last() =~= ps.drop_last());
    } else {
        assert(qs.drop_last() =~= ps.drop_last().update(k, p));
        assert(ps.drop_last()[k] == ps[k]);
        assert(keys_distinct(ps.drop_last())) by {
            assert forall|i: int, j: int| 0 <= i < j < ps.drop_last().len() implies (
            #[trigger] ps.drop_last()[i]).0@ != (#[trigger] ps.drop_last()[j]).0@ by {
                assert(ps.drop_last()[i] == ps[i] && ps.drop_last()[j] == ps[j]);
            }
        }
        lemma_pairs_map_update(ps.drop_last(), k, p);
        assert(ps[k].0@ != ps[ps.len() - 1].0@);
        assert(qs.last() == ps.last());
    }
}

impl Flags {
    #[verifier::type_invariant]
    spec fn inv(self) -> bool {
        keys_distinct(self.pairs@)
    }

    /// The position of the pair for `name`, if there is one.
    fn position(&self, name: &str) -> (r: Option<usize>)
        ensures
            match r {
                Some(k) => k < self.pairs@.len() && self.pairs@[k as int].0@ == name@,
                None => forall|j: int| 0 <= j < self.pairs@.len() ==> (#[trigger] self.pairs@[j]).0@ != name@,
            },
    {
        let mut k: usize = 0;
        while k < self.pairs.len()
            invariant
                k <= self.pairs@.len(),
                forall|j: int| 0 <= j < k ==> (#[trigger] self.pairs@[j]).0@ != name@,
            decreases self.pairs@.len() - k,
        {
            if str_eq(self.pairs[k].0.as_str(), name) {
                return Some(k);
            }
            k = k + 1;
        }
        None
    }

    fn insert(&mut self, key: String, value: String)
        ensures
            final(self)@ == old(self)@.insert(key@, value@),
    {
        proof {
            use_type_invariant(&*self);
        }
        match self.position(key.as_str()) {
            Some(k) => {
                let ghost before = self.pairs@;
                proof {
                    lemma_pairs_map_update(before, k as int, (key, value));
                }
                let mut pairs = Vec::new();
                std::mem::swap(&mut pairs, &mut self.pairs);
                pairs.set(k, (key, value));
                assert(pairs@ == before.update(k as int, (key, value)));
                assert(keys_distinct(pairs@)) by {
                    assert forall|i: int, j: int| 0 <= i < j < pairs@.len() implies (
                    #[trigger] pairs@[i]).0@ != (#[trigger] pairs@[j]).0@ by {
                        assert(before[i].0@ != before[j].0@);
                    }
                }
                self.pairs = pairs;
            },
            None => {
                let ghost before = self.pairs@;
                let mut pairs = Vec::new();
                std::mem::swap(&mut pairs, &mut self.pairs);
                pairs.push((key, value));
                assert(pairs@.drop_last() =~= before);
                assert(keys_distinct(pairs@)) by {
                    assert forall|i: int, j: int| 0 <= i < j < pairs@.len() implies (
                    #[trigger] pairs@[i]).0@ != (#[trigger] pairs@[j]).0@ by {
                        if j < before.len() {
                            assert(before[i].0@ != before[j].0@);
                        } else {
                            assert(pairs@[i] == before[i]);
                        }
                    }
                }
                self.pairs = pairs;
            },
        }
    }

    /// Reads `--name value` pairs. A word in a name's place that does not
    /// start with `--`, or a name with no value after it, is refused; a
    /// name given twice keeps its last value.
    pub fn parse(rest: &[String]) -> (r: Result<Self, String>)
        ensures
            match r {
                Ok(f) => parse_flags(strings_view(rest@)) == Ok::<
                    Map<Seq<char>, Seq<char>>,
                    Seq<char>,
                >(f@),
                Err(m) => parse_flags(strings_view(rest@)) == Err::<
                    Map<Seq<char>, Seq<char>>,
                    Seq<char>,
                >(m@),
            },
    {
        let ghost args = strings_view(rest@);
        let mut flags = Flags { pairs: Vec::new() };
        assert(flags@ =~= Map::<Seq<char>, Seq<char>>::empty());
        let mut i: usize = 0;
        while i < rest.len()
            invariant
                args == strings_view(rest@),
                i <= rest@.len() + 1,
                parse_flags(args) == parse_flags_from(args, i as int, flags@),
            decreases rest@.len() - i,
        {
            let key = &rest[i];
            assert(args[i as int] == key@);
            if !starts_with_dashes(key.as_str()) {
                return Err(concat2("unexpected positional argument: ", key.as_str()));
            }
            if i + 1 >= rest.len() {
                return Err(concat3("flag ", key.as_str(), " expects a value"));
            }
            let value = &rest[i + 1];
            assert(args[i + 1] == value@);
            let n = key.as_str().unicode_len();
            let name = String::from_str(key.as_str().substring_char(2, n));
            flags.insert(name, value.clone());
            i = i + 2;
        }
        Ok(flags)
    }

    /// The value of a flag that must be given.
    pub fn require(&self, name: &str) -> (r: Result<&str, String>)
        ensures
            match r {
                Ok(v) => self@.contains_key(name@) && v@ == self@[name@],
                Err(m) => !self@.contains_key(name@) && m@ == "missing required flag --"@ + name@,
            },
    {
        match self.optional(name) {
            Some(v) => Ok(v),
            None => Err(concat2("missing required flag --", name)),
        }
    }

    /// The value of a flag, if it was given.
    pub fn optional(&self, name: &str) -> (r: Option<&str>)
        ensures
            match r {
                Some(v) => self@.contains_key(name@) && v@ == self@[name@],
                None => !self@.contains_key(name@),
            },
    {
        proof {
            use_type_invariant(self);
        }
        match self.position(name) {
            Some(k) => {
                proof {
                    lemma_pairs_map_lookup(self.pairs@, k as int);
                }
                Some(self.pairs[k].1.as_str())
            },
            None => {
                proof {
                    lemma_pairs_map_absent(self.pairs@, name@);
                }
                None
            },
        }
    }
}

} // verus!
