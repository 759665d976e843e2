//! Documents, sort directives and the builder of search query strings.
//!
//! A [`SearchQuery`] collects a query term, a filter term and sort directives,
//! and [`SearchQuery::build_query`] writes them out as one string. Each builder
//! method takes the builder and gives it back, so a query is composed in one
//! line of calls and an unfinished builder cannot be used in two places.

use crate::text::replace_char;
use crate::text::replaced;
use crate::text::lemma_replaced_absent;
use crate::text::lemma_replaced_concat;
use vstd::prelude::*;
use vstd::string::*;

verus! {

/// A document that can be stored in an index.
///
/// The object id decides how the document is stored: with an empty id the
/// service picks one, with any other id the document is stored under it and
/// replaces what was there.
pub trait AlgoliaObject {
    /// The object id of the document. The provided method has none to give.
    fn get_object_id(&self) -> (id: String)
        default_ensures
            id@.len() == 0,
    {
        String::new()
    }
}

impl AlgoliaObject for serde_json::Value {

}

/// One sort directive, written out: a field name, a colon and a direction.
pub struct Sort {
    pub(crate) sort: String,
}

impl View for Sort {
    type V = Seq<char>;

    closed spec fn view(&self) -> Seq<char> {
        self.sort@
    }
}

/// What [`SearchQuery::sort`] accepts: anything that can name a sort directive.
pub trait QuerySort {
    /// The directive, written out.
    fn get_query(&self) -> &str;
}

impl QuerySort for Sort {
    fn get_query(&self) -> (query: &str)
        ensures
            query@ == self@,
    {
        self.sort.as_str()
    }
}

/// Makes a sort directive out of a field name.
pub trait Order {
    /// This field, largest first.
    fn desc(&mut self) -> Sort;

    /// This field, smallest first.
    fn asc(&mut self) -> Sort;
}

impl Order for &str {
    fn desc(&mut self) -> (directive: Sort)
        ensures
            directive@ == (*old(self))@ + ":desc"@,
            *final(self) == *old(self),
    {
        Sort { sort: (*self).to_owned().concat(":desc") }
    }

    fn asc(&mut self) -> (directive: Sort)
        ensures
            directive@ == (*old(self))@ + ":asc"@,
            *final(self) == *old(self),
    {
        Sort { sort: (*self).to_owned().concat(":asc") }
    }
}

/// What one character of an accumulated term becomes when the term is written
/// out: `|` becomes ` OR `, `&` becomes ` AND `, every other character stays.
pub open spec fn rendered_char(c: char) -> Seq<char> {
    if c == '|' {
        " OR "@
    } else if c == '&' {
        " AND "@
    } else {
        seq![c]
    }
}

/// An accumulated term written out, character by character from the left.
pub open spec fn rendered(term: Seq<char>) -> Seq<char>
    decreases term.len(),
{
    if term.len() == 0 {
        Seq::empty()
    } else {
        rendered_char(term[0]) + rendered(term.drop_first())
    }
}

/// The parts in order, with `sep` between each two of them.
pub open spec fn joined(parts: Seq<Seq<char>>, sep: Seq<char>) -> Seq<char>
    decreases parts.len(),
{
    if parts.len() == 0 {
        Seq::empty()
    } else if parts.len() == 1 {
        parts[0]
    } else {
        joined(parts.drop_last(), sep) + sep + parts.last()
    }
}

/// The mathematical content of a [`SearchQuery`].
pub struct SearchQueryView {
    /// Whether any of the query methods was ever called.
    pub is_query_set: bool,
    /// The accumulated query term.
    pub query: Seq<char>,
    /// The accumulated filter term, if a filter method was called.
    pub filter: Option<Seq<char>>,
    /// The sort directives so far, separated by commas, if there is any.
    pub sort: Option<Seq<char>>,
}

impl SearchQueryView {
    /// The builder on which nothing was called.
    pub open spec fn empty() -> Self {
        SearchQueryView { is_query_set: false, query: Seq::empty(), filter: None, sort: None }
    }

    /// After `query(term)`: the term takes the place of the query.
    pub open spec fn query(self, term: Seq<char>) -> Self {
        SearchQueryView { is_query_set: true, query: term, ..self }
    }

    /// After `or_query(term)`.
    pub open spec fn or_query(self, term: Seq<char>) -> Self {
        SearchQueryView {
            is_query_set: true,
            query: if self.query.len() == 0 {
                term
            } else {
                self.query + seq!['|'] + term
            },
            ..self
        }
    }

    /// After `and_query(term)`.
    pub open spec fn and_query(self, term: Seq<char>) -> Self {
        SearchQueryView {
            is_query_set: true,
            query: if self.query.len() == 0 {
                term
            } else {
                self.query + seq!['&'] + term
            },
            ..self
        }
    }

    /// After `filter(term)`: the term takes the place of the filter.
    pub open spec fn filter(self, term: Seq<char>) -> Self {
        SearchQueryView { filter: Some(term), ..self }
    }

    /// After `or_filter(term)`.
    pub open spec fn or_filter(self, term: Seq<char>) -> Self {
        SearchQueryView {
            filter: match self.filter {
                Some(filter) => Some(filter + seq!['|'] + term),
                None => Some(term),
            },
            ..self
        }
    }

    /// After `and_filter(term)`.
    pub open spec fn and_filter(self, term: Seq<char>) -> Self {
        SearchQueryView {
            filter: match self.filter {
                Some(filter) => Some(filter + seq!['&'] + term),
                None => Some(term),
            },
            ..self
        }
    }

    /// After `sort` with the given directive: it goes behind those before it.
    pub open spec fn sort(self, directive: Seq<char>) -> Self {
        SearchQueryView {
            sort: match self.sort {
                Some(sort) => Some(sort + seq![','] + directive),
                None => Some(directive),
            },
            ..self
        }
    }

    /// After `set_query`: the query term is written out in place.
    pub open spec fn with_query_rendered(self) -> Self {
        SearchQueryView { query: rendered(self.query), ..self }
    }

    /// After `set_filter`: the filter term, if any, is written out in place.
    pub open spec fn with_filter_rendered(self) -> Self {
        SearchQueryView {
            filter: match self.filter {
                Some(filter) => Some(rendered(filter)),
                None => None,
            },
            ..self
        }
    }

    /// The filter term written out, or nothing where no filter was set.
    pub open spec fn filter_text(self) -> Seq<char> {
        match self.filter {
            Some(filter) => rendered(filter),
            None => Seq::empty(),
        }
    }

    /// The segments of the query string that are present, in their fixed
    /// order: query, filter, sort.
    pub open spec fn segments(self) -> Seq<Seq<char>> {
        let query = if self.is_query_set {
            seq!["query="@ + rendered(self.query)]
        } else {
            Seq::empty()
        };
        let filter = match self.filter {
            Some(filter) => seq!["filter="@ + rendered(filter)],
            None => Seq::empty(),
        };
        let sort = match self.sort {
            Some(sort) => seq!["sort="@ + sort],
            None => Seq::empty(),
        };
        query + filter + sort
    }

    /// The query string: the present segments with `&` between them.
    pub open spec fn built(self) -> Seq<char> {
        joined(self.segments(), seq!['&'])
    }
}

/// A search query under construction.
pub struct SearchQuery {
    is_query_set: bool,
    query: String,
    filter: Option<String>,
    pub(crate) sort: Option<String>,
}

impl View for SearchQuery {
    type V = SearchQueryView;

    closed spec fn view(&self) -> SearchQueryView {
        SearchQueryView {
            is_query_set: self.is_query_set,
            query: self.query@,
            filter: self.filter.deep_view(),
            sort: self.sort.deep_view(),
        }
    }
}

impl SearchQuery {
    /// A builder on which nothing is set.
    pub fn new() -> (q: Self)
        ensures
            q@ == SearchQueryView::empty(),
    {
        Self { query: String::new(), filter: None, is_query_set: false, sort: None }
    }

    /// Sets the query term, in place of any term accumulated before.
    pub fn query(self, query: &str) -> (next: Self)
        ensures
            next@ == self@.query(query@),
    {
        let mut q = self;
        q.is_query_set = true;
        q.query = query.to_owned();
        q
    }

    /// Adds a term to the query as an alternative: behind a `|` where a term
    /// is there already, else as the term itself.
    pub fn or_query(self, query: &str) -> (next: Self)
        ensures
            next@ == self@.or_query(query@),
    {
        let mut q = self;
        q.is_query_set = true;
        if !q.query.as_str().is_empty() {
            proof {
                lemma_separators();
            }
            q.query.append("|");
        }
        q.query.append(query);
        q
    }

    /// Adds a term to the query as a further condition: behind a `&` where a
    /// term is there already, else as the term itself.
    pub fn and_query(self, query: &str) -> (next: Self)
        ensures
            next@ == self@.and_query(query@),
    {
        let mut q = self;
        q.is_query_set = true;
        if !q.query.as_str().is_empty() {
            proof {
                lemma_separators();
            }
            q.query.append("&");
        }
        q.query.append(query);
        q
    }

    /// Writes the query term out in place, and returns it.
    pub fn set_query(&mut self) -> (text: &str)
        ensures
            final(self)@ == old(self)@.with_query_rendered(),
            text@ == rendered(old(self)@.query),
    {
        self.query = render(self.query.as_str());
        self.query.as_str()
    }

    /// Sets the filter term, in place of any term accumulated before.
    pub fn filter(self, filter: &str) -> (next: Self)
        ensures
            next@ == self@.filter(filter@),
    {
        let mut q = self;
        q.filter = Some(filter.to_owned());
        q
    }

    /// Adds a term to the filter as an alternative: behind a `|` where a
    /// filter is set, else as the filter itself.
    pub fn or_filter(self, filter: &str) -> (next: Self)
        ensures
            next@ == self@.or_filter(filter@),
    {
        let mut q = self;
        q.filter = Some(extended(q.filter.take(), "|", filter));
        proof {
            lemma_separators();
        }
        q
    }

    /// Adds a term to the filter as a further condition: behind a `&` where a
    /// filter is set, else as the filter itself.
    pub fn and_filter(self, filter: &str) -> (next: Self)
        ensures
            next@ == self@.and_filter(filter@),
    {
        let mut q = self;
        q.filter = Some(extended(q.filter.take(), "&", filter));
        proof {
            lemma_separators();
        }
        q
    }

    /// Writes the filter term out in place, and returns it; without a filter
    /// the builder stays as it is and the text is empty.
    pub fn set_filter(&mut self) -> (text: &str)
        ensures
            final(self)@ == old(self)@.with_filter_rendered(),
            text@ == old(self)@.filter_text(),
    {
        match self.filter.take() {
            Some(filter) => {
                self.filter = Some(render(filter.as_str()));
            },
            None => {},
        }
        match &self.filter {
            Some(filter) => filter.as_str(),
            None => {
                proof {
                    reveal_strlit("");
                }
                assert(""@ == Seq::<char>::empty());
                ""
            },
        }
    }

    /// Adds the given directive behind those that are there, after a comma.
    pub fn sort_by(self, directive: &str) -> (next: Self)
        ensures
            next@ == self@.sort(directive@),
    {
        let mut q = self;
        q.sort = Some(extended(q.sort.take(), ",", directive));
        proof {
            lemma_separators();
        }
        q
    }

    /// Adds the directive that `order` gives behind those that are there,
    /// after a comma.
    pub fn sort<Q: QuerySort>(self, order: Q) -> (next: Self)
        ensures
            exists|directive: &str| #[trigger]
                call_ensures(Q::get_query, (&order,), directive) && next@ == self@.sort(
                    directive@,
                ),
    {
        self.sort_by(order.get_query())
    }

    /// Writes the query and the filter out in place and returns the query
    /// string: the segments `query=`, `filter=` and `sort=` that are present,
    /// in this order, with `&` between them.
    pub fn build_query(&mut self) -> (text: String)
        ensures
            final(self)@ == old(self)@.with_query_rendered().with_filter_rendered(),
            text@ == old(self)@.built(),
    {
        self.set_query();
        self.set_filter();
        let ghost before = old(self)@;
        let ghost mut parts: Seq<Seq<char>> = Seq::empty();
        let mut text = String::new();
        if self.is_query_set {
            text.append("query=");
            text.append(self.query.as_str());
            proof {
                parts = parts.push("query="@ + rendered(before.query));
            }
        }
        assert(text@ == joined(parts, seq!['&']));
        match &self.filter {
            Some(filter) => {
                if self.is_query_set {
                    proof {
                        lemma_separators();
                    }
                    text.append("&");
                }
                text.append("filter=");
                text.append(filter.as_str());
                proof {
                    let segment = "filter="@ + rendered(before.filter->0);
                    lemma_joined_push(parts, seq!['&'], segment);
                    parts = parts.push(segment);
                }
            },
            None => {},
        }
        assert(text@ == joined(parts, seq!['&']));
        match &self.sort {
            Some(sort) => {
                if self.is_query_set || self.filter.is_some() {
                    proof {
                        lemma_separators();
                    }
                    text.append("&");
                }
                text.append("sort=");
                text.append(sort.as_str());
                proof {
                    let segment = "sort="@ + before.sort->0;
                    lemma_joined_push(parts, seq!['&'], segment);
                    parts = parts.push(segment);
                }
            },
            None => {},
        }
        assert(text@ == joined(parts, seq!['&']));
        assert(parts == before.segments());
        text
    }
}

/// The accumulated text with `term` added: behind `sep` where there is a text
/// already, else `term` alone.
fn extended(so_far: Option<String>, sep: &str, term: &str) -> (text: String)
    ensures
        text@ == match so_far.deep_view() {
            Some(before) => before + sep@ + term@,
            None => term@,
        },
{
    match so_far {
        Some(mut text) => {
            text.append(sep);
            text.append(term);
            text
        },
        None => term.to_owned(),
    }
}

/// The separator literals, as sequences of one character.
proof fn lemma_separators()
    ensures
        "|"@ == seq!['|'],
        "&"@ == seq!['&'],
        ","@ == seq![','],
{
    reveal_strlit("|");
    reveal_strlit("&");
    reveal_strlit(",");
    assert("|"@ =~= seq!['|']);
    assert("&"@ =~= seq!['&']);
    assert(","@ =~= seq![',']);
}

/// Joining one more part puts the separator before it, unless it is the first.
pub proof fn lemma_joined_push(parts: Seq<Seq<char>>, sep: Seq<char>, part: Seq<char>)
    ensures
        joined(parts.push(part), sep) == if parts.len() == 0 {
            part
        } else {
            joined(parts, sep) + sep + part
        },
{
    assert(parts.push(part).drop_last() == parts);
}

/// Writes out an accumulated term: `|` as ` OR `, `&` as ` AND `.
pub fn render(term: &str) -> (text: String)
    ensures
        text@ == rendered(term@),
{
    let with_or = replace_char(term, '|', " OR ");
    let with_and = replace_char(with_or.as_str(), '&', " AND ");
    proof {
        lemma_two_passes(term@);
    }
    with_and
}

/// Replacing first every `|` and then every `&` writes the term out as one
/// pass over its characters does: neither replacement text holds a separator.
pub proof fn lemma_two_passes(term: Seq<char>)
    ensures
        replaced(replaced(term, '|', " OR "@), '&', " AND "@) == rendered(term),
    decreases term.len(),
{
    reveal_strlit(" OR ");
    reveal_strlit(" AND ");
    let or = " OR "@;
    let and = " AND "@;
    if term.len() == 0 {
    } else {
        let rest = replaced(term.drop_first(), '|', or);
        lemma_two_passes(term.drop_first());
        let head = if term[0] == '|' {
            or
        } else {
            seq![term[0]]
        };
        assert(replaced(term, '|', or) == head + rest);
        lemma_replaced_concat(head, rest, '&', and);
        if term[0] == '|' {
            assert(!or.contains('&')) by {
                if or.contains('&') {
                    let i = choose|i: int| 0 <= i < or.len() && or[i] == '&';
                    assert(or[i] != '&');
                }
            }
            lemma_replaced_absent(or, '&', and);
        } else {
            assert(head.drop_first() == Seq::<char>::empty());
            assert(replaced(head.drop_first(), '&', and) == Seq::<char>::empty());
            if term[0] == '&' {
                assert(replaced(head, '&', and) == and + Seq::<char>::empty());
                assert(and + Seq::<char>::empty() == and);
            } else {
                assert(replaced(head, '&', and) == seq![term[0]] + Seq::<char>::empty());
                assert(seq![term[0]] + Seq::<char>::empty() == seq![term[0]]);
            }
        }
    }
}

/// Writing out a concatenation is writing out both parts.
pub proof fn lemma_rendered_concat(a: Seq<char>, b: Seq<char>)
    ensures
        rendered(a + b) == rendered(a) + rendered(b),
    decreases a.len(),
{
    if a.len() == 0 {
        assert(a + b == b);
        assert(rendered(a) + rendered(b) == rendered(b));
    } else {
        assert((a + b).drop_first() == a.drop_first() + b);
        lemma_rendered_concat(a.drop_first(), b);
        let head = rendered_char(a[0]);
        let tail = rendered(a.drop_first());
        assert((head + tail) + rendered(b) == head + (tail + rendered(b)));
    }
}

/// A term of one character is written out as that character is.
pub proof fn lemma_rendered_one(c: char)
    ensures
        rendered(seq![c]) == rendered_char(c),
{
    assert(seq![c].drop_first() == Seq::<char>::empty());
    assert(rendered(seq![c].drop_first()) == Seq::<char>::empty());
    assert(rendered_char(c) + Seq::<char>::empty() == rendered_char(c));
}

/// A term that was written out holds no separator any more.
pub proof fn lemma_rendered_has_no_separator(term: Seq<char>)
    ensures
        !rendered(term).contains('|'),
        !rendered(term).contains('&'),
    decreases term.len(),
{
    reveal_strlit(" OR ");
    reveal_strlit(" AND ");
    if term.len() > 0 {
        lemma_rendered_has_no_separator(term.drop_first());
        let head = rendered_char(term[0]);
        let tail = rendered(term.drop_first());
        assert forall|i: int| 0 <= i < head.len() implies head[i] != '|' && head[i] != '&' by {}
        assert forall|i: int| 0 <= i < (head + tail).len() implies (head + tail)[i] != '|' && (head
            + tail)[i] != '&' by {
            if i >= head.len() {
                assert(tail.contains(tail[i - head.len()]));
            }
        }
    }
}

/// A term without separators is written out as it stands.
pub proof fn lemma_rendered_plain(term: Seq<char>)
    requires
        !term.contains('|'),
        !term.contains('&'),
    ensures
        rendered(term) == term,
    decreases term.len(),
{
    if term.len() == 0 {
        assert(term == Seq::<char>::empty());
    } else {
        assert(term.contains(term[0]));
        assert forall|c: char| term.drop_first().contains(c) implies term.contains(c) by {
            let i = choose|i: int| 0 <= i < term.drop_first().len() && term.drop_first()[i] == c;
            assert(term[i + 1] == c);
        }
        lemma_rendered_plain(term.drop_first());
        assert(seq![term[0]] + term.drop_first() == term);
    }
}

/// Writing out what was written out changes nothing.
pub proof fn lemma_rendered_twice(term: Seq<char>)
    ensures
        rendered(rendered(term)) == rendered(term),
{
    lemma_rendered_has_no_separator(term);
    lemma_rendered_plain(rendered(term));
}

/// A query set and then extended by an alternative and by a further
/// condition is written out as the three terms with ` OR ` and ` AND `
/// between them, in this order. The first term must not be empty: an empty
/// query takes the next term without a separator.
pub proof fn lemma_query_chain(first: Seq<char>, second: Seq<char>, third: Seq<char>)
    requires
        first.len() > 0,
    ensures
        SearchQueryView::empty().query(first).or_query(second).and_query(
            third,
        ).with_query_rendered().query == rendered(first) + " OR "@ + rendered(second) + " AND "@
            + rendered(third),
{
    let term = first + seq!['|'] + second + seq!['&'] + third;
    assert(SearchQueryView::empty().query(first).or_query(second).and_query(third).query == term);
    lemma_rendered_concat(first + seq!['|'] + second + seq!['&'], third);
    lemma_rendered_concat(first + seq!['|'] + second, seq!['&']);
    lemma_rendered_concat(first + seq!['|'], second);
    lemma_rendered_concat(first, seq!['|']);
    lemma_rendered_one('|');
    lemma_rendered_one('&');
}

/// A filter set and then extended by an alternative and by a further
/// condition is written out as the three terms with ` OR ` and ` AND `
/// between them, in this order.
pub proof fn lemma_filter_chain(first: Seq<char>, second: Seq<char>, third: Seq<char>)
    ensures
        SearchQueryView::empty().filter(first).or_filter(second).and_filter(third).filter_text()
            == rendered(first) + " OR "@ + rendered(second) + " AND "@ + rendered(third),
{
    let term = first + seq!['|'] + second + seq!['&'] + third;
    assert(SearchQueryView::empty().filter(first).or_filter(second).and_filter(third).filter
        == Some(term));
    lemma_rendered_concat(first + seq!['|'] + second + seq!['&'], third);
    lemma_rendered_concat(first + seq!['|'] + second, seq!['&']);
    lemma_rendered_concat(first + seq!['|'], second);
    lemma_rendered_concat(first, seq!['|']);
    lemma_rendered_one('|');
    lemma_rendered_one('&');
}

/// Two sort directives come out in the order of the calls, with a comma
/// between them, and make up the whole query string of a builder on which
/// nothing else was set.
pub proof fn lemma_sorts_keep_order(first: Seq<char>, second: Seq<char>)
    ensures
        SearchQueryView::empty().sort(first).sort(second).sort == Some(
            first + seq![','] + second,
        ),
        SearchQueryView::empty().sort(first).sort(second).built() == "sort="@ + (first + seq![',']
            + second),
{
    let v = SearchQueryView::empty().sort(first).sort(second);
    assert(v.segments() =~= seq!["sort="@ + (first + seq![','] + second)]);
}

/// A builder on which no query method was called has no query segment: its
/// segments are those of the filter and of the sort alone.
pub proof fn lemma_unset_query_is_omitted(v: SearchQueryView)
    requires
        !v.is_query_set,
    ensures
        v.segments() == (SearchQueryView { query: Seq::empty(), ..v }).segments(),
        v.filter is None && v.sort is None ==> v.built() == Seq::<char>::empty(),
        v.filter is Some && v.sort is None ==> v.built() == "filter="@ + rendered(v.filter->0),
        v.filter is None && v.sort is Some ==> v.built() == "sort="@ + v.sort->0,
        v.filter is Some && v.sort is Some ==> v.built() == "filter="@ + rendered(v.filter->0)
            + seq!['&'] + ("sort="@ + v.sort->0),
{
    let filter: Seq<Seq<char>> = match v.filter {
        Some(filter) => seq!["filter="@ + rendered(filter)],
        None => Seq::empty(),
    };
    let sort: Seq<Seq<char>> = match v.sort {
        Some(sort) => seq!["sort="@ + sort],
        None => Seq::empty(),
    };
    assert(v.segments() =~= filter + sort);
    if v.filter is Some && v.sort is Some {
        assert(v.segments() =~= seq!["filter="@ + rendered(v.filter->0)].push(
            "sort="@ + v.sort->0,
        ));
        lemma_joined_push(
            seq!["filter="@ + rendered(v.filter->0)],
            seq!['&'],
            "sort="@ + v.sort->0,
        );
    } else if v.filter is Some {
        assert(v.segments() =~= seq!["filter="@ + rendered(v.filter->0)]);
    } else if v.sort is Some {
        assert(v.segments() =~= seq!["sort="@ + v.sort->0]);
    } else {
        assert(v.segments() =~= Seq::<Seq<char>>::empty());
    }
}

/// A builder on which only a filter was set builds the filter segment and
/// nothing else.
pub proof fn lemma_filter_alone(term: Seq<char>)
    ensures
        SearchQueryView::empty().filter(term).built() == "filter="@ + rendered(term),
{
    lemma_unset_query_is_omitted(SearchQueryView::empty().filter(term));
}

/// A builder on which a query method was called starts with the query
/// segment, whatever the term is.
pub proof fn lemma_set_query_is_emitted(v: SearchQueryView)
    requires
        v.is_query_set,
    ensures
        v.segments().len() > 0,
        v.segments()[0] == "query="@ + rendered(v.query),
{
}

/// Building leaves the builder in a state that builds the same string again.
pub proof fn lemma_build_is_stable(v: SearchQueryView)
    ensures
        v.with_query_rendered().with_filter_rendered().built() == v.built(),
{
    lemma_rendered_twice(v.query);
    if v.filter is Some {
        lemma_rendered_twice(v.filter->0);
    }
}

} // verus!
