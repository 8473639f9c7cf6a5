use vstd::prelude::*;
use vstd::string::*;

use crate::text::{concat2, join_with, lemma_split_n_join, lemma_split_n_len, same_text, split_n, split_n_exec};

verus! {

// ---------------------------------------------------------------------------
// Subject hierarchy: `logs.<namespace>.<application>.<component>.<run_id>`
// ---------------------------------------------------------------------------

/// The pieces of a subject, split at `.` into at most five pieces.
pub open spec fn subject_pieces(subject: Seq<char>) -> Seq<Seq<char>> {
    split_n(subject, 5, '.')
}

/// The `(namespace, application, component, run_id)` of a subject of the form
/// `logs.<ns>.<app>.<component>.<run_id>`: the subject splits into exactly five
/// pieces and the first one is `logs`. The run id is the rest of the subject
/// after the fourth dot and may itself hold dots.
pub open spec fn parsed_subject(subject: Seq<char>) -> Option<(Seq<char>, Seq<char>, Seq<char>, Seq<char>)> {
    let p = subject_pieces(subject);
    if p.len() == 5 && p[0] == "logs"@ {
        Some((p[1], p[2], p[3], p[4]))
    } else {
        None
    }
}

/// The subject that a producer publishes for the given four parts.
pub open spec fn subject_of(ns: Seq<char>, app: Seq<char>, component: Seq<char>, run_id: Seq<char>) -> Seq<char> {
    "logs"@ + seq!['.'] + ns + seq!['.'] + app + seq!['.'] + component + seq!['.'] + run_id
}

/// Parsed subject metadata.
pub struct SubjectMeta {
    pub namespace: String,
    pub application: String,
    pub component: String,
    pub run_id: String,
}

/// Parse a NATS subject of the form `logs.<ns>.<app>.<component>.<run_id>`.
pub fn parse_subject(subject: &str) -> (r: Option<SubjectMeta>)
    ensures
        match r {
            Some(m) => parsed_subject(subject@) == Some(
                (m.namespace@, m.application@, m.component@, m.run_id@),
            ),
            None => parsed_subject(subject@) is None,
        },
{
    let parts = split_n_exec(subject, 5, '.');
    if parts.len() == 5 && same_text(parts[0].as_str(), "logs") {
        let namespace = parts[1].clone();
        let application = parts[2].clone();
        let component = parts[3].clone();
        let run_id = parts[4].clone();
        proof {
            assert(parts@[1]@ == subject_pieces(subject@)[1]);
            assert(parts@[2]@ == subject_pieces(subject@)[2]);
            assert(parts@[3]@ == subject_pieces(subject@)[3]);
            assert(parts@[4]@ == subject_pieces(subject@)[4]);
            assert(parts@[0]@ == subject_pieces(subject@)[0]);
        }
        Some(SubjectMeta { namespace, application, component, run_id })
    } else {
        proof {
            if parts@.len() == 5 {
                assert(parts@[0]@ == subject_pieces(subject@)[0]);
            }
        }
        None
    }
}

/// The JetStream filter subject that selects every log of one run:
/// `logs.*.*.*.<run_id>`.
pub fn stream_filter_subject(run_id: &str) -> (r: String)
    ensures
        r@ == "logs.*.*.*."@ + run_id@,
{
    concat2("logs.*.*.*.", run_id)
}

/// The subject a producer publishes a log to:
/// `logs.<namespace>.<application>.<component>.<run_id>`.
pub fn log_subject(namespace: &str, application: &str, component: &str, run_id: &str) -> (r: String)
    ensures
        r@ == subject_of(namespace@, application@, component@, run_id@),
{
    let mut s = String::from_str("logs.");
    s.append(namespace);
    s.append(".");
    s.append(application);
    s.append(".");
    s.append(component);
    s.append(".");
    s.append(run_id);
    proof {
        reveal_strlit("logs.");
        reveal_strlit("logs");
        reveal_strlit(".");
        assert("logs."@ == "logs"@ + seq!['.']);
        assert("."@ == seq!['.']);
    }
    s
}

/// A subject that parses is rebuilt from its parts: it is the subject
/// published for them, and the namespace, application and component hold no
/// dot (the run id, the rest of the subject, may).
pub proof fn law_parsed_subject_rebuilds(subject: Seq<char>)
    requires
        parsed_subject(subject) is Some,
    ensures
        ({
            let (ns, app, component, run_id) = parsed_subject(subject)->0;
            &&& subject == subject_of(ns, app, component, run_id)
            &&& !ns.contains('.')
            &&& !app.contains('.')
            &&& !component.contains('.')
        }),
{
    let p = subject_pieces(subject);
    lemma_split_n_join(subject, 5, '.');
    assert(!p[1].contains('.'));
    assert(!p[2].contains('.'));
    assert(!p[3].contains('.'));
    let p4 = p.drop_last();
    let p3 = p4.drop_last();
    let p2 = p3.drop_last();
    let p1 = p2.drop_last();
    assert(p1 == seq![p[0]]);
    assert(join_with(p1, '.') == p[0]);
    assert(join_with(p2, '.') == p[0] + seq!['.'] + p[1]);
    assert(join_with(p3, '.') == p[0] + seq!['.'] + p[1] + seq!['.'] + p[2]);
    assert(join_with(p4, '.') == p[0] + seq!['.'] + p[1] + seq!['.'] + p[2] + seq!['.'] + p[3]);
    assert(join_with(p, '.') == p[0] + seq!['.'] + p[1] + seq!['.'] + p[2] + seq!['.'] + p[3] + seq!['.']
        + p[4]);
}

// ---------------------------------------------------------------------------
// Facts about splitting
// ---------------------------------------------------------------------------

/// A text without the separator is a single piece.
pub proof fn lemma_split_n_no_sep(s: Seq<char>, n: nat, sep: char)
    requires
        n >= 1,
        !s.contains(sep),
    ensures
        split_n(s, n, sep) == seq![s],
    decreases s.len(),
{
    if s.len() > 0 {
        assert(!s.drop_last().contains(sep)) by {
            if s.drop_last().contains(sep) {
                let i = choose|i: int| 0 <= i < s.drop_last().len() && s.drop_last()[i] == sep;
                assert(s[i] == sep);
            }
        }
        lemma_split_n_no_sep(s.drop_last(), n, sep);
        assert(s.last() != sep) by {
            assert(s[s.len() - 1] == s.last());
        }
        assert(s.drop_last().push(s.last()) == s);
    } else {
        assert(s == Seq::<char>::empty());
    }
}

/// With room for a single piece, the whole text is that piece.
pub proof fn lemma_split_n_one(s: Seq<char>, sep: char)
    ensures
        split_n(s, 1, sep) == seq![s],
    decreases s.len(),
{
    if s.len() > 0 {
        lemma_split_n_one(s.drop_last(), sep);
        assert(s.drop_last().push(s.last()) == s);
    } else {
        assert(s == Seq::<char>::empty());
    }
}

/// The first piece ends at the first separator.
pub proof fn lemma_split_n_first(a: Seq<char>, b: Seq<char>, n: nat, sep: char)
    requires
        n >= 2,
        !a.contains(sep),
    ensures
        split_n(a + seq![sep] + b, n, sep) == seq![a] + split_n(b, (n - 1) as nat, sep),
    decreases b.len(),
{
    let s = a + seq![sep] + b;
    if b.len() == 0 {
        assert(s.drop_last() == a);
        lemma_split_n_no_sep(a, n, sep);
        assert(s.last() == sep);
        assert(split_n(b, (n - 1) as nat, sep) == seq![Seq::<char>::empty()]);
    } else {
        let b2 = b.drop_last();
        assert(s.drop_last() == a + seq![sep] + b2);
        lemma_split_n_first(a, b2, n, sep);
        lemma_split_n_len(b2, (n - 1) as nat, sep);
        assert(s.last() == b.last());
        let q = split_n(b2, (n - 1) as nat, sep);
        let p = seq![a] + q;
        if b.last() == sep && p.len() < n {
            assert(p.push(Seq::<char>::empty()) == seq![a] + q.push(Seq::<char>::empty()));
        } else {
            assert(p.last() == q.last());
            assert(p.update(p.len() - 1, p.last().push(b.last())) == seq![a] + q.update(
                q.len() - 1,
                q.last().push(b.last()),
            ));
        }
    }
}

/// Subject round trip: the subject published for four parts, the first three
/// free of dots, parses back into exactly those parts.
pub proof fn lemma_subject_round_trip(ns: Seq<char>, app: Seq<char>, component: Seq<char>, run_id: Seq<char>)
    requires
        !ns.contains('.'),
        !app.contains('.'),
        !component.contains('.'),
    ensures
        parsed_subject(subject_of(ns, app, component, run_id)) == Some((ns, app, component, run_id)),
{
    reveal_strlit("logs");
    let logs = "logs"@;
    assert(!logs.contains('.')) by {
        if logs.contains('.') {
            let i = choose|i: int| 0 <= i < logs.len() && logs[i] == '.';
            assert(false);
        }
    }
    let r3 = component + seq!['.'] + run_id;
    let r2 = app + seq!['.'] + r3;
    let r1 = ns + seq!['.'] + r2;
    assert(subject_of(ns, app, component, run_id) == logs + seq!['.'] + r1);
    lemma_split_n_first(logs, r1, 5, '.');
    lemma_split_n_first(ns, r2, 4, '.');
    lemma_split_n_first(app, r3, 3, '.');
    lemma_split_n_first(component, run_id, 2, '.');
    lemma_split_n_one(run_id, '.');
    let p = subject_pieces(subject_of(ns, app, component, run_id));
    assert(p == seq![logs] + (seq![ns] + (seq![app] + (seq![component] + seq![run_id]))));
}

} // verus!
