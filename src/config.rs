//! A device to monitor: its bus object path and the properties asked for.
use vstd::prelude::*;
use vstd::string::*;
use crate::property::{is_name, is_property_name, parse_spec, Property, PropertyError, RawValue};
use crate::text::str_eq;

verus! {

/// Why a device configuration could not be made.
#[derive(Debug, PartialEq, Eq)]
pub enum ConfigError {
    /// The list of target properties is empty.
    EmptyTargetList,
    /// A target is not a property name; it is carried here.
    UnrecognizedProperty(String),
    /// The flat list of paths and targets has an odd length, carried here.
    OddArgumentCount(usize),
}

/// The pieces of `s` between commas, in order; an empty `s` gives one empty piece.
pub open spec fn split_commas(s: Seq<char>) -> Seq<Seq<char>>
    decreases s.len(),
{
    if s.len() == 0 {
        seq![Seq::empty()]
    } else {
        let prev = split_commas(s.drop_last());
        if s.last() == ',' {
            prev.push(Seq::empty())
        } else {
            prev.update(prev.len() - 1, prev.last().push(s.last()))
        }
    }
}

proof fn lemma_split_nonempty(s: Seq<char>)
    ensures
        split_commas(s).len() >= 1,
    decreases s.len(),
{
    if s.len() > 0 {
        lemma_split_nonempty(s.drop_last());
    }
}

/// The first piece that is no property name, if any.
pub open spec fn first_unknown(toks: Seq<Seq<char>>) -> Option<Seq<char>>
    decreases toks.len(),
{
    if toks.len() == 0 {
        None
    } else if !is_name(toks[0]) {
        Some(toks[0])
    } else {
        first_unknown(toks.drop_first())
    }
}

proof fn lemma_first_unknown(toks: Seq<Seq<char>>)
    ensures
        first_unknown(toks) is None <==> (forall|i: int| 0 <= i < toks.len() ==> is_name(#[trigger] toks[i])),
    decreases toks.len(),
{
    if toks.len() > 0 {
        lemma_first_unknown(toks.drop_first());
        if first_unknown(toks) is None {
            assert forall|i: int| 0 <= i < toks.len() implies is_name(#[trigger] toks[i]) by {
                if i > 0 {
                    assert(toks[i] == toks.drop_first()[i - 1]);
                }
            }
        } else if is_name(toks[0]) {
            let j = choose|j: int| 0 <= j < toks.drop_first().len() && !is_name(#[trigger] toks.drop_first()[j]);
            assert(toks[j + 1] == toks.drop_first()[j]);
        }
    }
}

/// A device's object path and the property names to report for it.
#[derive(Debug)]
pub struct DeviceConfig {
    path: String,
    targets: Vec<String>,
}

/// The views of a sequence of strings.
pub open spec fn views(v: Seq<String>) -> Seq<Seq<char>> {
    v.map_values(|s: String| s@)
}

/// Whether `r` is what making a configuration of `path` and `targets` gives:
/// an empty target list fails, then the first target that is no property name
/// fails, and otherwise the configuration holds the path and the targets.
pub open spec fn new_outcome(path: Seq<char>, targets: Seq<char>, r: Result<DeviceConfig, ConfigError>) -> bool {
    match r {
        Ok(c) => targets.len() > 0 && first_unknown(split_commas(targets)) is None && c.path_spec() == path
            && c.targets_spec() == split_commas(targets),
        Err(ConfigError::EmptyTargetList) => targets.len() == 0,
        Err(ConfigError::UnrecognizedProperty(e)) => targets.len() > 0 && first_unknown(split_commas(targets))
            == Some(e@),
        Err(ConfigError::OddArgumentCount(_)) => false,
    }
}

/// Whether making a configuration of `targets` succeeds.
pub open spec fn new_succeeds(targets: Seq<char>) -> bool {
    targets.len() > 0 && first_unknown(split_commas(targets)) is None
}

/// Whether the configuration pair at `i` of a flat argument list is valid.
pub open spec fn pair_ok(args: Seq<String>, i: int) -> bool {
    new_succeeds(args[2 * i + 1]@)
}

impl DeviceConfig {
    pub closed spec fn path_spec(&self) -> Seq<char> {
        self.path@
    }

    pub closed spec fn targets_spec(&self) -> Seq<Seq<char>> {
        views(self.targets@)
    }

    /// At least one target, and each a property name.
    pub open spec fn wf(&self) -> bool {
        self.targets_spec().len() > 0 && forall|i: int|
            0 <= i < self.targets_spec().len() ==> is_name(#[trigger] self.targets_spec()[i])
    }

    /// The device's object path.
    pub fn path(&self) -> (r: &str)
        ensures
            r@ == self.path_spec(),
    {
        self.path.as_str()
    }

    /// The property names to report, in the order given.
    pub fn targets(&self) -> (r: &Vec<String>)
        ensures
            views(r@) == self.targets_spec(),
    {
        &self.targets
    }

    /// Makes a configuration from a device path and a comma-separated list of
    /// property names. The path is kept as it is.
    pub fn new(path: &str, targets: &str) -> (r: Result<DeviceConfig, ConfigError>)
        ensures
            new_outcome(path@, targets@, r),
            r matches Ok(c) ==> c.wf(),
    {
        if targets.unicode_len() == 0 {
            return Err(ConfigError::EmptyTargetList);
        }
        let toks = split_on_commas(targets);
        assert(views(toks@).subrange(0, toks@.len() as int) =~= views(toks@));
        let mut i: usize = 0;
        while i < toks.len()
            invariant
                targets@.len() > 0,
                views(toks@) == split_commas(targets@),
                i <= toks@.len(),
                first_unknown(split_commas(targets@)) == first_unknown(views(toks@).subrange(i as int, toks@.len() as int)),
                forall|j: int| 0 <= j < i ==> is_name(#[trigger] views(toks@)[j]),
            decreases toks.len() - i,
        {
            let ghost rest = views(toks@).subrange(i as int, toks@.len() as int);
            assert(rest[0] == toks@[i as int]@);
            assert(rest.drop_first() =~= views(toks@).subrange(i + 1, toks@.len() as int));
            if !is_property_name(toks[i].as_str()) {
                assert(first_unknown(rest) == Some(rest[0]));
                let bad = toks[i].clone();
                assert(bad@ == rest[0]);
                let r = Err(ConfigError::UnrecognizedProperty(bad));
                return r;
            }
            i = i + 1;
        }
        proof {
            lemma_first_unknown(views(toks@));
            assert(views(toks@).subrange(toks@.len() as int, toks@.len() as int).len() == 0);
        }
        let c = DeviceConfig { path: String::from_str(path), targets: toks };
        assert(c.targets_spec() == views(toks@));
        proof {
            lemma_split_nonempty(targets@);
        }
        assert(c.wf());
        Ok(c)
    }

    /// Makes one configuration per consecutive (path, targets) pair of a flat
    /// list, stopping at the first pair that fails.
    pub fn from_varargs(args: &[String]) -> (r: Result<Vec<DeviceConfig>, ConfigError>)
        ensures
            args@.len() % 2 == 1 ==> (r matches Err(ConfigError::OddArgumentCount(n)) && n == args@.len()),
            args@.len() % 2 == 0 ==> (r is Ok <==> forall|i: int| 0 <= i < args@.len() / 2 ==> pair_ok(args@, i)),
            r matches Ok(v) ==> v@.len() == args@.len() / 2 && forall|i: int| 0 <= i < v@.len() ==>
                new_outcome(args@[2 * i]@, args@[2 * i + 1]@, Ok(#[trigger] v@[i])) && v@[i].wf(),
            args@.len() % 2 == 0 ==> (r matches Err(e) ==> exists|i: int| 0 <= i < args@.len() / 2
                && !pair_ok(args@, i) && (forall|j: int| 0 <= j < i ==> pair_ok(args@, j))
                && new_outcome(args@[2 * i]@, args@[2 * i + 1]@, Err(e))),
    {
        let n = args.len();
        if n % 2 != 0 {
            return Err(ConfigError::OddArgumentCount(n));
        }
        let mut v: Vec<DeviceConfig> = Vec::new();
        let mut k: usize = 0;
        while k < n / 2
            invariant
                n == args@.len(),
                n % 2 == 0,
                k <= n / 2,
                v@.len() == k,
                forall|i: int| 0 <= i < k ==> pair_ok(args@, i),
                forall|i: int| 0 <= i < k ==>
                    new_outcome(args@[2 * i]@, args@[2 * i + 1]@, Ok(#[trigger] v@[i])) && v@[i].wf(),
            decreases n / 2 - k,
        {
            let r = DeviceConfig::new(args[2 * k].as_str(), args[2 * k + 1].as_str());
            match r {
                Ok(c) => {
                    v.push(c);
                },
                Err(e) => {
                    assert(!pair_ok(args@, k as int));
                    return Err(e);
                },
            }
            k = k + 1;
        }
        Ok(v)
    }
}

/// The value of the first entry named `k` in a notification's changed properties.
pub open spec fn lookup(changed: Seq<(String, RawValue)>, k: Seq<char>) -> Option<RawValue>
    decreases changed.len(),
{
    if changed.len() == 0 {
        None
    } else if changed[0].0@ == k {
        Some(changed[0].1)
    } else {
        lookup(changed.drop_first(), k)
    }
}

/// What parsing the value of target `k` gives, if the notification holds it.
pub open spec fn target_outcome(changed: Seq<(String, RawValue)>, k: Seq<char>) -> Option<Result<Property, PropertyError>> {
    match lookup(changed, k) {
        Some(v) => Some(parse_spec(k, v)),
        None => None,
    }
}

/// The change record of a notification: each target, in order, that the
/// notification holds with a value of the right type, and that value.
pub open spec fn changes_of(targets: Seq<Seq<char>>, changed: Seq<(String, RawValue)>) -> Seq<(Seq<char>, Property)>
    decreases targets.len(),
{
    if targets.len() == 0 {
        Seq::empty()
    } else {
        let prev = changes_of(targets.drop_last(), changed);
        match target_outcome(changed, targets.last()) {
            Some(Ok(p)) => prev.push((targets.last(), p)),
            _ => prev,
        }
    }
}

/// The targets, in order, that the notification holds with a value of the wrong type.
pub open spec fn mismatches_of(targets: Seq<Seq<char>>, changed: Seq<(String, RawValue)>) -> Seq<Seq<char>>
    decreases targets.len(),
{
    if targets.len() == 0 {
        Seq::empty()
    } else {
        let prev = mismatches_of(targets.drop_last(), changed);
        match target_outcome(changed, targets.last()) {
            Some(Err(_)) => prev.push(targets.last()),
            _ => prev,
        }
    }
}

/// What a notification brings for one device: the changed targets with their
/// new values, and the targets whose value had the wrong type.
#[derive(Debug)]
pub struct ChangeSet {
    pub changes: Vec<(String, Property)>,
    pub mismatched: Vec<String>,
}

/// The views of the names in a change record.
pub open spec fn record_view(v: Seq<(String, Property)>) -> Seq<(Seq<char>, Property)> {
    v.map_values(|e: (String, Property)| (e.0@, e.1))
}

fn lookup_value(changed: &Vec<(String, RawValue)>, k: &str) -> (r: Option<RawValue>)
    ensures
        r == lookup(changed@, k@),
{
    let mut i: usize = 0;
    assert(changed@.subrange(0, changed@.len() as int) =~= changed@);
    while i < changed.len()
        invariant
            i <= changed@.len(),
            lookup(changed@, k@) == lookup(changed@.subrange(i as int, changed@.len() as int), k@),
        decreases changed.len() - i,
    {
        let ghost rest = changed@.subrange(i as int, changed@.len() as int);
        assert(rest.drop_first() =~= changed@.subrange(i + 1, changed@.len() as int));
        if str_eq(changed[i].0.as_str(), k) {
            return Some(changed[i].1);
        }
        i = i + 1;
    }
    None
}

impl DeviceConfig {
    /// Picks the targets out of a notification's changed properties and
    /// parses their values. A target absent from the notification is left out;
    /// one present with a value of the wrong type is reported as mismatched.
    pub fn collect_changes(&self, changed: &Vec<(String, RawValue)>) -> (r: ChangeSet)
        ensures
            record_view(r.changes@) == changes_of(self.targets_spec(), changed@),
            views(r.mismatched@) == mismatches_of(self.targets_spec(), changed@),
    {
        let mut changes: Vec<(String, Property)> = Vec::new();
        let mut mismatched: Vec<String> = Vec::new();
        let mut i: usize = 0;
        while i < self.targets.len()
            invariant
                i <= self.targets@.len(),
                record_view(changes@) == changes_of(views(self.targets@).subrange(0, i as int), changed@),
                views(mismatched@) == mismatches_of(views(self.targets@).subrange(0, i as int), changed@),
            decreases self.targets.len() - i,
        {
            let k = &self.targets[i];
            let ghost sub = views(self.targets@).subrange(0, i + 1);
            assert(sub.drop_last() =~= views(self.targets@).subrange(0, i as int));
            assert(sub.last() == k@);
            match lookup_value(changed, k.as_str()) {
                Some(v) => match Property::parse(k.as_str(), &v) {
                    Ok(p) => {
                        let ghost before = changes@;
                        changes.push((k.clone(), p));
                        assert(record_view(changes@) =~= record_view(before).push((k@, p)));
                    },
                    Err(_) => {
                        let ghost before = mismatched@;
                        mismatched.push(k.clone());
                        assert(views(mismatched@) =~= views(before).push(k@));
                    },
                },
                None => {},
            }
            i = i + 1;
        }
        assert(views(self.targets@).subrange(0, self.targets@.len() as int) =~= views(self.targets@));
        ChangeSet { changes, mismatched }
    }
}

/// Splits `s` at each comma.
fn split_on_commas(s: &str) -> (r: Vec<String>)
    ensures
        views(r@) == split_commas(s@),
{
    let n = s.unicode_len();
    let mut r: Vec<String> = Vec::new();
    let mut start: usize = 0;
    let mut i: usize = 0;
    assert(s@.subrange(0, 0) =~= Seq::<char>::empty());
    assert(views(r@).push(s@.subrange(0, 0)) =~= seq![Seq::<char>::empty()]);
    while i < n
        invariant
            n == s@.len(),
            start <= i <= n,
            views(r@).push(s@.subrange(start as int, i as int)) == split_commas(s@.subrange(0, i as int)),
        decreases n - i,
    {
        let c = s.get_char(i);
        proof {
            let pre = s@.subrange(0, i + 1);
            assert(pre.drop_last() =~= s@.subrange(0, i as int));
            assert(pre.last() == c);
            lemma_split_nonempty(s@.subrange(0, i as int));
        }
        if c == ',' {
            let ghost before = r@;
            let piece = s.substring_char(start, i);
            r.push(String::from_str(piece));
            assert(views(r@) =~= views(before).push(s@.subrange(start as int, i as int)));
            start = i + 1;
            assert(s@.subrange(start as int, i + 1) =~= Seq::<char>::empty());
        } else {
            proof {
                assert(s@.subrange(start as int, i + 1) =~= s@.subrange(start as int, i as int).push(c));
            }
        }
        i = i + 1;
    }
    let piece = s.substring_char(start, n);
    r.push(String::from_str(piece));
    assert(s@.subrange(0, n as int) =~= s@);
    r
}

} // verus!
