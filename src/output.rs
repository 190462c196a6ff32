//! The output line written for each change record.
use vstd::prelude::*;
use vstd::string::*;

verus! {

/// How change lines are written: the text between a name and its value, the
/// text between pairs, and whether a line starts with the time.
#[derive(Debug)]
pub struct LineFormat {
    pub separator: String,
    pub delimiter: String,
    pub timestamp: bool,
}

/// The rendered pairs joined: `name<sep>value`, with `delim` between pairs.
pub open spec fn joined(pairs: Seq<(Seq<char>, Seq<char>)>, sep: Seq<char>, delim: Seq<char>) -> Seq<char>
    decreases pairs.len(),
{
    if pairs.len() == 0 {
        Seq::empty()
    } else if pairs.len() == 1 {
        pairs[0].0 + sep + pairs[0].1
    } else {
        joined(pairs.drop_last(), sep, delim) + delim + pairs.last().0 + sep + pairs.last().1
    }
}

/// One output line: the time and a space when given, the device path, a
/// space, the joined pairs and a newline.
pub open spec fn line_text(
    time: Option<Seq<char>>,
    path: Seq<char>,
    pairs: Seq<(Seq<char>, Seq<char>)>,
    sep: Seq<char>,
    delim: Seq<char>,
) -> Seq<char> {
    let prefix = match time {
        Some(t) => t + seq![' '],
        None => Seq::empty(),
    };
    prefix + path + seq![' '] + joined(pairs, sep, delim) + seq!['\n']
}

/// The views of rendered pairs.
pub open spec fn pairs_view(v: Seq<(String, String)>) -> Seq<(Seq<char>, Seq<char>)> {
    v.map_values(|e: (String, String)| (e.0@, e.1@))
}

/// Whether `s` holds no newline.
pub open spec fn no_newline(s: Seq<char>) -> bool {
    forall|i: int| 0 <= i < s.len() ==> s[i] != '\n'
}

/// The current UTC time in RFC 3339 form with milliseconds and a `Z` suffix.
/// Relies on chrono's `Utc::now` and `DateTime::to_rfc3339_opts`, which
/// writes digits, signs, `-`, `:`, `T`, `.` and `Z`; the time itself depends
/// on the clock, so only that it holds no newline is stated.
#[verifier::external_body]
fn utc_now_millis() -> (r: String)
    ensures
        no_newline(r@),
{
    chrono::Utc::now().to_rfc3339_opts(chrono::SecondsFormat::Millis, true)
}

proof fn lemma_joined_no_newline(pairs: Seq<(Seq<char>, Seq<char>)>, sep: Seq<char>, delim: Seq<char>)
    requires
        no_newline(sep),
        no_newline(delim),
        forall|i: int| 0 <= i < pairs.len() ==> no_newline(#[trigger] pairs[i].0) && no_newline(pairs[i].1),
    ensures
        no_newline(joined(pairs, sep, delim)),
    decreases pairs.len(),
{
    if pairs.len() == 1 {
        assert(no_newline(pairs[0].0) && no_newline(pairs[0].1));
    } else if pairs.len() > 1 {
        let prev = pairs.drop_last();
        assert forall|i: int| 0 <= i < prev.len() implies no_newline(#[trigger] prev[i].0) && no_newline(prev[i].1) by {
            assert(prev[i] == pairs[i]);
        }
        lemma_joined_no_newline(prev, sep, delim);
        assert(no_newline(pairs[pairs.len() - 1].0) && no_newline(pairs[pairs.len() - 1].1));
    }
}

/// A line is one line: where the time, the path, the separator, the
/// delimiter and every rendered pair hold no newline, the line ends with a
/// newline and holds no other.
pub proof fn lemma_one_line(
    time: Option<Seq<char>>,
    path: Seq<char>,
    pairs: Seq<(Seq<char>, Seq<char>)>,
    sep: Seq<char>,
    delim: Seq<char>,
)
    requires
        time matches Some(t) ==> no_newline(t),
        no_newline(path),
        no_newline(sep),
        no_newline(delim),
        forall|i: int| 0 <= i < pairs.len() ==> no_newline(#[trigger] pairs[i].0) && no_newline(pairs[i].1),
    ensures
        line_text(time, path, pairs, sep, delim).len() > 0,
        line_text(time, path, pairs, sep, delim).last() == '\n',
        no_newline(line_text(time, path, pairs, sep, delim).drop_last()),
{
    lemma_joined_no_newline(pairs, sep, delim);
    let prefix = match time {
        Some(t) => t + seq![' '],
        None => Seq::<char>::empty(),
    };
    let body = prefix + path + seq![' '] + joined(pairs, sep, delim);
    assert(no_newline(prefix));
    assert(no_newline(body));
    assert(line_text(time, path, pairs, sep, delim) == body + seq!['\n']);
    assert((body + seq!['\n']).drop_last() =~= body);
}

impl LineFormat {
    /// The line for `device_path` and its rendered pairs, with `time` as its
    /// leading time when given.
    pub fn format_line(&self, time: Option<&str>, device_path: &str, pairs: &Vec<(String, String)>) -> (r: String)
        ensures
            r@ == line_text(
                match time { Some(t) => Some(t@), None => None },
                device_path@,
                pairs_view(pairs@),
                self.separator@,
                self.delimiter@,
            ),
    {
        proof {
            reveal_strlit(" ");
            reveal_strlit("\n");
        }
        let mut out = String::new();
        match time {
            Some(t) => {
                out.append(t);
                out.append(" ");
            },
            None => {},
        }
        out.append(device_path);
        out.append(" ");
        let ghost head = out@;
        let mut i: usize = 0;
        while i < pairs.len()
            invariant
                i <= pairs@.len(),
                out@ == head + joined(pairs_view(pairs@).subrange(0, i as int), self.separator@, self.delimiter@),
            decreases pairs.len() - i,
        {
            let ghost sub = pairs_view(pairs@).subrange(0, i + 1);
            assert(sub.drop_last() =~= pairs_view(pairs@).subrange(0, i as int));
            if i > 0 {
                out.append(self.delimiter.as_str());
            }
            out.append(pairs[i].0.as_str());
            out.append(self.separator.as_str());
            out.append(pairs[i].1.as_str());
            proof {
                if i == 0 {
                    assert(sub.len() == 1);
                    assert(sub[0] == (pairs@[0].0@, pairs@[0].1@));
                }
            }
            assert(out@ =~= head + joined(sub, self.separator@, self.delimiter@));
            i = i + 1;
        }
        out.append("\n");
        assert(pairs_view(pairs@).subrange(0, pairs@.len() as int) =~= pairs_view(pairs@));
        assert(out@ =~= line_text(
            match time { Some(t) => Some(t@), None => None },
            device_path@,
            pairs_view(pairs@),
            self.separator@,
            self.delimiter@,
        ));
        out
    }

    /// The line for `device_path` and its rendered pairs, led by the current
    /// time when the format asks for it.
    pub fn line(&self, device_path: &str, pairs: &Vec<(String, String)>) -> (r: String)
        ensures
            !self.timestamp ==> r@ == line_text(None, device_path@, pairs_view(pairs@), self.separator@, self.delimiter@),
            self.timestamp ==> exists|t: Seq<char>|
                no_newline(t) && r@ == line_text(Some(t), device_path@, pairs_view(pairs@), self.separator@, self.delimiter@),
    {
        if self.timestamp {
            let t = utc_now_millis();
            self.format_line(Some(t.as_str()), device_path, pairs)
        } else {
            self.format_line(None, device_path, pairs)
        }
    }
}

} // verus!
