//! The query-string dialect of the API: `name=value` pairs, written for the
//! parameters that are present, in a fixed order, separated by `&`.

use crate::text::{bool_str, bool_word, decimal, push_decimal};
use vstd::prelude::*;
use vstd::string::StringExecFns;

verus! {

/// One parameter as it stands in a query string.
pub open spec fn pair(name: Seq<char>, value: Seq<char>) -> Seq<char> {
    name + seq!['='] + value
}

/// The parts, in order, with the separator between each two of them.
pub open spec fn joined(parts: Seq<Seq<char>>, separator: char) -> Seq<char>
    decreases parts.len(),
{
    if parts.len() == 0 {
        Seq::empty()
    } else if parts.len() == 1 {
        parts[0]
    } else {
        joined(parts.drop_last(), separator) + seq![separator] + parts.last()
    }
}

/// The parameters that are present, in the order they stand in.
pub open spec fn present(params: Seq<Option<Seq<char>>>) -> Seq<Seq<char>>
    decreases params.len(),
{
    if params.len() == 0 {
        Seq::empty()
    } else {
        match params.last() {
            Some(p) => present(params.drop_last()).push(p),
            None => present(params.drop_last()),
        }
    }
}

/// The query string of a list of optional parameters: those that are present,
/// joined by `&`.
pub open spec fn query_string(params: Seq<Option<Seq<char>>>) -> Seq<char> {
    joined(present(params), '&')
}

/// A numeric parameter, written in decimal.
pub open spec fn number_param(name: Seq<char>, value: Option<int>) -> Option<Seq<char>> {
    match value {
        Some(n) => Some(pair(name, decimal(n))),
        None => None,
    }
}

/// A boolean parameter, written as `true` or `false`.
pub open spec fn flag_param(name: Seq<char>, value: Option<bool>) -> Option<Seq<char>> {
    match value {
        Some(b) => Some(pair(name, bool_word(b))),
        None => None,
    }
}

/// A parameter whose value is passed through as it is.
pub open spec fn text_param(name: Seq<char>, value: Option<Seq<char>>) -> Option<Seq<char>> {
    match value {
        Some(t) => Some(pair(name, t)),
        None => None,
    }
}

/// A list parameter: its items in the order given, separated by commas.
pub open spec fn list_param(name: Seq<char>, value: Option<Seq<Seq<char>>>) -> Option<
    Seq<char>,
> {
    match value {
        Some(items) => Some(pair(name, joined(items, ','))),
        None => None,
    }
}

/// The number in an optional byte, as an integer.
pub open spec fn some_int_u8(value: Option<u8>) -> Option<int> {
    match value {
        Some(n) => Some(n as int),
        None => None,
    }
}

/// The number in an optional counter, as an integer.
pub open spec fn some_int_i32(value: Option<i32>) -> Option<int> {
    match value {
        Some(n) => Some(n as int),
        None => None,
    }
}

/// Taking one more parameter into account adds it to those present, or
/// nothing.
pub proof fn lemma_present_step(params: Seq<Option<Seq<char>>>, k: int)
    requires
        0 <= k < params.len(),
    ensures
        present(params.take(k + 1)) == match params[k] {
            Some(p) => present(params.take(k)).push(p),
            None => present(params.take(k)),
        },
{
    assert(params.take(k + 1).drop_last() =~= params.take(k));
}

/// Joining one more part adds the separator and the part, or the part alone
/// where it is the first.
pub proof fn lemma_joined_push(parts: Seq<Seq<char>>, part: Seq<char>, separator: char)
    ensures
        joined(parts.push(part), separator) == if parts.len() == 0 {
            part
        } else {
            joined(parts, separator) + seq![separator] + part
        },
{
    assert(parts.push(part).drop_last() =~= parts);
}

/// `part` stands in `query` from `start` on as one whole parameter: the start
/// of the query or an `&` is in front of it, and the end of the query or an
/// `&` is behind it.
pub open spec fn segment_at(query: Seq<char>, start: int, part: Seq<char>) -> bool {
    &&& 0 <= start
    &&& start + part.len() <= query.len()
    &&& query.subrange(start, start + part.len()) == part
    &&& start == 0 || query[start - 1] == '&'
    &&& start + part.len() == query.len() || query[start + part.len()] == '&'
}

/// `part` stands somewhere in `query` as one whole parameter.
pub open spec fn has_segment(query: Seq<char>, part: Seq<char>) -> bool {
    exists|start: int| segment_at(query, start, part)
}

/// Where the parameter at place `k` starts in the query string, if it is
/// present: behind the query string of the parameters before it and an `&`,
/// or at the front where none of them is present.
pub open spec fn segment_start(params: Seq<Option<Seq<char>>>, k: int) -> int {
    if present(params.take(k)).len() == 0 {
        0
    } else {
        (query_string(params.take(k)).len() + 1) as int
    }
}

/// `whole` begins with `front`, and goes on with nothing or with an `&`.
pub open spec fn continues(whole: Seq<char>, front: Seq<char>) -> bool {
    &&& front.len() <= whole.len()
    &&& whole.subrange(0, front.len() as int) == front
    &&& front.len() == whole.len() || whole[front.len() as int] == '&'
}

/// A list of parameters of which none is present has the empty query string.
pub proof fn lemma_query_of_nothing(params: Seq<Option<Seq<char>>>)
    requires
        forall|i: int| 0 <= i < params.len() ==> params[i] is None,
    ensures
        present(params).len() == 0,
        query_string(params) == Seq::<char>::empty(),
    decreases params.len(),
{
    if params.len() > 0 {
        lemma_query_of_nothing(params.drop_last());
    }
}

/// The query string of the first `k` parameters, if one of them is present,
/// is the front of the query string of the first `j`, up to a boundary.
pub proof fn lemma_query_extends(params: Seq<Option<Seq<char>>>, k: int, j: int)
    requires
        0 <= k <= j <= params.len(),
        present(params.take(k)).len() > 0,
    ensures
        present(params.take(j)).len() >= present(params.take(k)).len(),
        continues(query_string(params.take(j)), query_string(params.take(k))),
    decreases j - k,
{
    let front = query_string(params.take(k));
    if j == k {
        assert(front.subrange(0, front.len() as int) =~= front);
    } else {
        lemma_query_extends(params, k, j - 1);
        lemma_present_step(params, j - 1);
        let shorter = query_string(params.take(j - 1));
        let longer = query_string(params.take(j));
        match params[j - 1] {
            Some(p) => {
                lemma_joined_push(present(params.take(j - 1)), p, '&');
                assert(longer == shorter + seq!['&'] + p);
                assert(longer.subrange(0, front.len() as int) =~= shorter.subrange(
                    0,
                    front.len() as int,
                ));
            },
            None => {},
        }
    }
}

/// A parameter that is present stands in the query string as one whole
/// parameter, at the place that the parameters before it leave, and the query
/// string of the parameters up to it ends with it.
pub proof fn lemma_param_is_segment(params: Seq<Option<Seq<char>>>, k: int)
    requires
        0 <= k < params.len(),
        params[k] is Some,
    ensures
        segment_at(query_string(params), segment_start(params, k), params[k]->0),
        has_segment(query_string(params), params[k]->0),
        segment_start(params, k) + params[k]->0.len() == query_string(params.take(k + 1)).len(),
{
    let p = params[k]->0;
    let start = segment_start(params, k);
    let upto = query_string(params.take(k + 1));
    let whole = query_string(params);
    lemma_present_step(params, k);
    lemma_joined_push(present(params.take(k)), p, '&');
    lemma_query_extends(params, k + 1, params.len() as int);
    assert(params.take(params.len() as int) =~= params);
    assert(upto.subrange(start, start + p.len()) =~= p);
    assert(whole.subrange(start, start + p.len()) =~= whole.subrange(
        0,
        upto.len() as int,
    ).subrange(start, start + p.len()));
    if start != 0 {
        assert(upto[start - 1] == '&');
        assert(whole.subrange(0, upto.len() as int)[start - 1] == whole[start - 1]);
    }
    assert(segment_at(whole, start, p));
}

/// Writes the optional parameters of a query one after the other.
pub(crate) struct Writer {
    pub(crate) out: String,
    pub(crate) started: bool,
    pub(crate) params: Ghost<Seq<Option<Seq<char>>>>,
    pub(crate) done: Ghost<int>,
}

impl Writer {
    /// The text so far is the query string of the parameters dealt with so
    /// far.
    pub(crate) open spec fn wf(&self) -> bool {
        &&& 0 <= self.done@ <= self.params@.len()
        &&& self.out@ == query_string(self.params@.take(self.done@))
        &&& self.started == (present(self.params@.take(self.done@)).len() > 0)
    }

    /// The next parameter to deal with.
    pub(crate) open spec fn next(&self) -> Option<Seq<char>> {
        self.params@[self.done@]
    }

    /// The writer has dealt with one more parameter of the same list.
    pub(crate) open spec fn advanced(&self, before: &Writer) -> bool {
        &&& self.wf()
        &&& self.params@ == before.params@
        &&& self.done@ == before.done@ + 1
    }

    /// A writer that has dealt with none of `params` yet.
    pub(crate) fn new(Ghost(params): Ghost<Seq<Option<Seq<char>>>>) -> (w: Writer)
        ensures
            w.wf(),
            w.params@ == params,
            w.done@ == 0,
    {
        let w = Writer {
            out: String::new(),
            started: false,
            params: Ghost(params),
            done: Ghost(0),
        };
        assert(params.take(0) =~= Seq::empty());
        w
    }

    /// The query string, once every parameter has been dealt with.
    pub(crate) fn finish(self) -> (r: String)
        requires
            self.wf(),
            self.done@ == self.params@.len(),
        ensures
            r@ == query_string(self.params@),
    {
        assert(self.params@.take(self.done@) =~= self.params@);
        self.out
    }

    /// Starts a parameter: the separator, where one is due, then the name
    /// and `=`.
    fn open(&mut self, name: &str)
        requires
            old(self).wf(),
        ensures
            final(self).out@ == if old(self).started {
                old(self).out@ + seq!['&'] + name@ + seq!['=']
            } else {
                name@ + seq!['=']
            },
            final(self).started == old(self).started,
            final(self).params == old(self).params,
            final(self).done == old(self).done,
    {
        proof {
            reveal_strlit("&");
            reveal_strlit("=");
        }
        if self.started {
            self.out.append("&");
            assert("&"@ =~= seq!['&']);
        } else {
            assert(self.out@ =~= Seq::<char>::empty());
        }
        self.out.append(name);
        self.out.append("=");
        assert("="@ =~= seq!['=']);
        assert(self.out@ =~= if old(self).started {
            old(self).out@ + seq!['&'] + name@ + seq!['=']
        } else {
            name@ + seq!['=']
        });
    }

    /// Ends a parameter whose value has been written after `open`.
    fn close(
        &mut self,
        Ghost(before): Ghost<Writer>,
        Ghost(name): Ghost<Seq<char>>,
        Ghost(value): Ghost<Seq<char>>,
    )
        requires
            before.wf(),
            before.done@ < before.params@.len(),
            before.next() == Some(pair(name, value)),
            old(self).params == before.params,
            old(self).done == before.done,
            old(self).out@ == if before.started {
                before.out@ + seq!['&'] + name + seq!['='] + value
            } else {
                name + seq!['='] + value
            },
        ensures
            final(self).advanced(&before),
            final(self).out == old(self).out,
    {
        self.started = true;
        self.done = Ghost(self.done@ + 1);
        proof {
            let params = before.params@;
            let k = before.done@;
            lemma_present_step(params, k);
            lemma_joined_push(present(params.take(k)), pair(name, value), '&');
            assert(self.out@ =~= query_string(params.take(k + 1)));
        }
    }

    /// Deals with a parameter that is absent.
    pub(crate) fn skip(&mut self)
        requires
            old(self).wf(),
            old(self).done@ < old(self).params@.len(),
            old(self).next() is None,
        ensures
            final(self).advanced(old(self)),
    {
        proof {
            lemma_present_step(self.params@, self.done@);
        }
        self.done = Ghost(self.done@ + 1);
    }

    /// Writes a parameter whose value is passed through.
    pub(crate) fn text(&mut self, name: &str, value: &str)
        requires
            old(self).wf(),
            old(self).done@ < old(self).params@.len(),
            old(self).next() == Some(pair(name@, value@)),
        ensures
            final(self).advanced(old(self)),
    {
        let ghost before = *self;
        self.open(name);
        self.out.append(value);
        self.close(Ghost(before), Ghost(name@), Ghost(value@));
    }

    /// Deals with an optional parameter whose value is passed through.
    pub(crate) fn optional_text(&mut self, name: &str, value: &Option<String>)
        requires
            old(self).wf(),
            old(self).done@ < old(self).params@.len(),
            old(self).next() == text_param(name@, value.deep_view()),
        ensures
            final(self).advanced(old(self)),
    {
        match value {
            Some(t) => self.text(name, t.as_str()),
            None => self.skip(),
        }
    }

    /// Deals with an optional parameter that holds a byte.
    pub(crate) fn small(&mut self, name: &str, value: Option<u8>)
        requires
            old(self).wf(),
            old(self).done@ < old(self).params@.len(),
            old(self).next() == number_param(name@, some_int_u8(value)),
        ensures
            final(self).advanced(old(self)),
    {
        match value {
            Some(n) => self.number(name, Some(n as i64)),
            None => self.number(name, None),
        }
    }

    /// Deals with an optional parameter that holds a counter.
    pub(crate) fn stat(&mut self, name: &str, value: Option<i32>)
        requires
            old(self).wf(),
            old(self).done@ < old(self).params@.len(),
            old(self).next() == number_param(name@, some_int_i32(value)),
        ensures
            final(self).advanced(old(self)),
    {
        match value {
            Some(n) => self.number(name, Some(n as i64)),
            None => self.number(name, None),
        }
    }

    /// Deals with an optional numeric parameter.
    fn number(&mut self, name: &str, value: Option<i64>)
        requires
            old(self).wf(),
            old(self).done@ < old(self).params@.len(),
            old(self).next() == number_param(
                name@,
                match value {
                    Some(n) => Some(n as int),
                    None => None,
                },
            ),
        ensures
            final(self).advanced(old(self)),
    {
        match value {
            Some(n) => {
                let ghost before = *self;
                self.open(name);
                push_decimal(&mut self.out, n);
                self.close(Ghost(before), Ghost(name@), Ghost(decimal(n as int)));
            },
            None => self.skip(),
        }
    }

    /// Deals with an optional boolean parameter.
    pub(crate) fn flag(&mut self, name: &str, value: Option<bool>)
        requires
            old(self).wf(),
            old(self).done@ < old(self).params@.len(),
            old(self).next() == flag_param(name@, value),
        ensures
            final(self).advanced(old(self)),
    {
        match value {
            Some(b) => self.text(name, bool_str(b)),
            None => self.skip(),
        }
    }

    /// Deals with an optional list parameter.
    pub(crate) fn list(&mut self, name: &str, value: &Option<Vec<String>>)
        requires
            old(self).wf(),
            old(self).done@ < old(self).params@.len(),
            old(self).next() == list_param(name@, value.deep_view()),
        ensures
            final(self).advanced(old(self)),
    {
        match value {
            Some(items) => {
                let ghost before = *self;
                self.open(name);
                let ghost opened = self.out@;
                let ghost views = items.deep_view();
                let mut i: usize = 0;
                while i < items.len()
                    invariant
                        i <= items.len(),
                        views == items.deep_view(),
                        self.out@ == opened + joined(views.take(i as int), ','),
                        self.params == before.params,
                        self.done == before.done,
                    decreases items.len() - i,
                {
                    proof {
                        reveal_strlit(",");
                        assert(","@ =~= seq![',']);
                        assert(views.take(i + 1) =~= views.take(i as int).push(items[i as int]@));
                        lemma_joined_push(views.take(i as int), items[i as int]@, ',');
                    }
                    if i != 0 {
                        self.out.append(",");
                    }
                    self.out.append(items[i].as_str());
                    i = i + 1;
                    assert(self.out@ =~= opened + joined(views.take(i as int), ','));
                }
                assert(views.take(i as int) =~= views);
                assert(self.out@ =~= if before.started {
                    before.out@ + seq!['&'] + name@ + seq!['='] + joined(views, ',')
                } else {
                    name@ + seq!['='] + joined(views, ',')
                });
                self.close(Ghost(before), Ghost(name@), Ghost(joined(views, ',')));
            },
            None => self.skip(),
        }
    }
}

} // verus!
