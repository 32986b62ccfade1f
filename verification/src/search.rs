//! The search subsystem: the schema of the index, the query expression, and
//! the commands that carry both to the search service. What the service
//! replies is decoded in [`crate::reply`].

use vstd::prelude::*;
use crate::schemas::SearchKnowledgeArgs;
use crate::text::{decimal, joined, milli_decimal, push_owned, push_text, signed_milli_decimal, texts};

verus! {

/// The kinds of column that the index knows.
#[derive(Debug, Clone, Copy, PartialEq, Eq, Structural)]
pub enum IndexType {
    Text,
    Tag,
    Numeric,
    Vector,
    Geo,
}

/// One column of the index. A weight is a count of thousandths.
#[derive(Debug, Clone)]
pub struct IndexField {
    pub name: String,
    pub field_type: IndexType,
    pub weight: Option<u32>,
    pub sortable: bool,
    pub fuzzy: bool,
    pub phonetic: bool,
}

/// A column as contracts see it.
pub struct FieldModel {
    pub name: Seq<char>,
    pub field_type: IndexType,
    pub weight: Option<u32>,
    pub sortable: bool,
    pub fuzzy: bool,
    pub phonetic: bool,
}

impl View for IndexField {
    type V = FieldModel;

    open spec fn view(&self) -> FieldModel {
        FieldModel {
            name: self.name@,
            field_type: self.field_type,
            weight: self.weight,
            sortable: self.sortable,
            fuzzy: self.fuzzy,
            phonetic: self.phonetic,
        }
    }
}

/// A column with a name and a kind, and no option set.
pub open spec fn plain_field(name: Seq<char>, field_type: IndexType) -> FieldModel {
    FieldModel { name, field_type, weight: None, sortable: false, fuzzy: false, phonetic: false }
}

impl IndexField {
    /// A column without options.
    pub fn new(name: &str, field_type: IndexType) -> (f: IndexField)
        ensures
            f@ == plain_field(name@, field_type),
    {
        IndexField {
            name: String::from_str(name),
            field_type,
            weight: None,
            sortable: false,
            fuzzy: false,
            phonetic: false,
        }
    }

    /// The column with its weight set, in thousandths.
    pub fn weight(self, weight: u32) -> (f: IndexField)
        ensures
            f@ == (FieldModel { weight: Some(weight), ..self@ }),
    {
        let mut f = self;
        f.weight = Some(weight);
        f
    }

    /// The column marked sortable.
    pub fn sortable(self) -> (f: IndexField)
        ensures
            f@ == (FieldModel { sortable: true, ..self@ }),
    {
        let mut f = self;
        f.sortable = true;
        f
    }

    /// The column marked for fuzzy matching.
    pub fn fuzzy(self) -> (f: IndexField)
        ensures
            f@ == (FieldModel { fuzzy: true, ..self@ }),
    {
        let mut f = self;
        f.fuzzy = true;
        f
    }

    /// The column marked for phonetic matching.
    pub fn phonetic(self) -> (f: IndexField)
        ensures
            f@ == (FieldModel { phonetic: true, ..self@ }),
    {
        let mut f = self;
        f.phonetic = true;
        f
    }
}

/// The parameters of one search. The minimum score and the bounds of a
/// numeric filter are counts of thousandths.
pub struct SearchParams {
    pub query: String,
    pub filters: Vec<(String, String)>,
    pub numeric_filters: Vec<(String, i64, i64)>,
    pub limit: Option<usize>,
    pub offset: Option<usize>,
    pub sort_by: Option<String>,
    pub sort_asc: bool,
    pub min_score: Option<u32>,
    pub return_fields: Option<Vec<String>>,
    pub summarize: bool,
    pub highlight: bool,
    pub fuzzy_distance: Option<u32>,
}

/// The minimum score of a search that names none: a tenth.
pub const MIN_SCORE: u32 = 100;

/// The fuzzy distance of a search that names none.
pub const DEFAULT_FUZZY_DISTANCE: u32 = 2;

impl Default for SearchParams {
    /// An empty query for the first ten matches, with the usual minimum
    /// score and fuzzy distance.
    fn default() -> (p: SearchParams)
        ensures
            p.query@.len() == 0,
            p.filters@.len() == 0,
            p.numeric_filters@.len() == 0,
            p.limit == Some(10usize),
            p.offset == Some(0usize),
            p.sort_by is None,
            p.sort_asc,
            p.min_score == Some(MIN_SCORE),
            p.return_fields is None,
            !p.summarize,
            !p.highlight,
            p.fuzzy_distance == Some(DEFAULT_FUZZY_DISTANCE),
    {
        SearchParams {
            query: String::new(),
            filters: Vec::new(),
            numeric_filters: Vec::new(),
            limit: Some(10),
            offset: Some(0),
            sort_by: None,
            sort_asc: true,
            min_score: Some(MIN_SCORE),
            return_fields: None,
            summarize: false,
            highlight: false,
            fuzzy_distance: Some(DEFAULT_FUZZY_DISTANCE),
        }
    }
}

/// The clause that matches `value` in the text column `field`: the bare term,
/// or the term between percent signs for a fuzzy match.
pub open spec fn text_clause(field: Seq<char>, value: Seq<char>, fuzzy: bool) -> Seq<char> {
    if fuzzy {
        seq!['@'] + field + seq![':', '%'] + value + seq!['%']
    } else {
        seq!['@'] + field + seq![':'] + value
    }
}

/// The clause that asks the tag column `field` to hold `value`.
pub open spec fn tag_clause(field: Seq<char>, value: Seq<char>) -> Seq<char> {
    seq!['@'] + field + seq![':', '{'] + value + seq!['}']
}

/// The clause that asks the numeric column `field` to lie between `min` and
/// `max`, both counts of thousandths, each written as the shortest decimal
/// number.
pub open spec fn range_clause(field: Seq<char>, min: int, max: int) -> Seq<char> {
    seq!['@'] + field + seq![':', '['] + signed_milli_decimal(min) + seq![' '] + signed_milli_decimal(max) + seq![
        ']',
    ]
}

/// The query expression of a list of clauses: the clauses joined by single
/// spaces, or the match-all star where there is none.
pub open spec fn expression(clauses: Seq<Seq<char>>) -> Seq<char> {
    if clauses.len() == 0 {
        seq!['*']
    } else {
        joined(clauses, seq![' '])
    }
}

/// Two clauses, the second given after the first, are joined by one space,
/// the first before the second.
pub proof fn two_clauses_are_joined_by_one_space(first: Seq<char>, second: Seq<char>)
    ensures
        expression(Seq::<Seq<char>>::empty().push(first).push(second)) == first + seq![' '] + second,
{
    let one = Seq::<Seq<char>>::empty().push(first);
    let both = one.push(second);
    assert(both.drop_last() =~= one);
    assert(joined(one, seq![' ']) == first);
    assert(both.last() == second);
}

/// Collects the clauses of a query in the order in which they are given.
pub struct QueryBuilder {
    pub parts: Vec<String>,
}

impl QueryBuilder {
    /// The clauses given so far.
    pub open spec fn clauses(&self) -> Seq<Seq<char>> {
        texts(self.parts@)
    }

    /// A builder without clauses.
    pub fn new() -> (b: QueryBuilder)
        ensures
            b.clauses() == Seq::<Seq<char>>::empty(),
    {
        let b = QueryBuilder { parts: Vec::new() };
        proof {
            assert(b.clauses() =~= Seq::<Seq<char>>::empty());
        }
        b
    }

    /// Adds a text-match clause behind the clauses given so far.
    pub fn text_match(self, field: &str, value: &str, fuzzy: bool) -> (b: QueryBuilder)
        ensures
            b.clauses() == self.clauses().push(text_clause(field@, value@, fuzzy)),
    {
        let mut clause = String::from_str("@");
        clause.append(field);
        if fuzzy {
            clause.append(":%");
            clause.append(value);
            clause.append("%");
        } else {
            clause.append(":");
            clause.append(value);
        }
        proof {
            reveal_strlit("@");
            reveal_strlit(":%");
            reveal_strlit("%");
            reveal_strlit(":");
            assert(clause@ =~= text_clause(field@, value@, fuzzy));
        }
        self.with(clause)
    }

    /// Adds a tag-filter clause behind the clauses given so far.
    pub fn tag_filter(self, field: &str, value: &str) -> (b: QueryBuilder)
        ensures
            b.clauses() == self.clauses().push(tag_clause(field@, value@)),
    {
        let mut clause = String::from_str("@");
        clause.append(field);
        clause.append(":{");
        clause.append(value);
        clause.append("}");
        proof {
            reveal_strlit("@");
            reveal_strlit(":{");
            reveal_strlit("}");
            assert(clause@ =~= tag_clause(field@, value@));
        }
        self.with(clause)
    }

    /// Adds a numeric-range clause behind the clauses given so far. The
    /// bounds are counts of thousandths.
    pub fn numeric_range(self, field: &str, min: i64, max: i64) -> (b: QueryBuilder)
        ensures
            b.clauses() == self.clauses().push(range_clause(field@, min as int, max as int)),
    {
        let mut clause = String::from_str("@");
        clause.append(field);
        clause.append(":[");
        clause.append(crate::text::signed_milli_text(min).as_str());
        clause.append(" ");
        clause.append(crate::text::signed_milli_text(max).as_str());
        clause.append("]");
        proof {
            reveal_strlit("@");
            reveal_strlit(":[");
            reveal_strlit(" ");
            reveal_strlit("]");
            assert(clause@ =~= range_clause(field@, min as int, max as int));
        }
        self.with(clause)
    }

    fn with(self, clause: String) -> (b: QueryBuilder)
        ensures
            b.clauses() == self.clauses().push(clause@),
    {
        let mut parts = self.parts;
        parts.push(clause);
        let b = QueryBuilder { parts };
        proof {
            assert(b.clauses() =~= self.clauses().push(clause@));
        }
        b
    }

    /// The query expression: the clauses in the order given, joined by
    /// single spaces; the match-all star where none was given.
    pub fn build(self) -> (query: String)
        ensures
            query@ == expression(self.clauses()),
    {
        if self.parts.len() == 0 {
            proof {
                reveal_strlit("*");
                assert("*"@ =~= seq!['*']);
            }
            String::from_str("*")
        } else {
            proof {
                reveal_strlit(" ");
                assert(" "@ =~= seq![' ']);
            }
            crate::text::join(&self.parts, " ")
        }
    }
}

/// The clauses of a search, in their order: the text clause on the column
/// `content` where the query is not empty, then the tag filters, then the
/// numeric ranges, each list in the caller's order.
pub open spec fn query_clauses(p: SearchParams) -> Seq<Seq<char>> {
    let head = if p.query@.len() == 0 {
        Seq::<Seq<char>>::empty()
    } else {
        seq![text_clause("content"@, p.query@, p.fuzzy_distance is Some)]
    };
    head + Seq::new(p.filters@.len(), |i: int| tag_clause(p.filters@[i].0@, p.filters@[i].1@)) + Seq::new(
        p.numeric_filters@.len(),
        |i: int| range_clause(p.numeric_filters@[i].0@, p.numeric_filters@[i].1 as int, p.numeric_filters@[i].2 as int),
    )
}

/// Builds the query expression of a search.
pub fn build_query(params: &SearchParams) -> (query: String)
    ensures
        query@ == expression(query_clauses(*params)),
{
    let mut builder = QueryBuilder::new();
    if !params.query.as_str().is_empty() {
        builder = builder.text_match("content", params.query.as_str(), params.fuzzy_distance.is_some());
    }
    let ghost head = builder.clauses();
    let mut i: usize = 0;
    while i < params.filters.len()
        invariant
            i <= params.filters.len(),
            builder.clauses() == head + Seq::new(
                i as nat,
                |k: int| tag_clause(params.filters@[k].0@, params.filters@[k].1@),
            ),
        decreases params.filters.len() - i,
    {
        let ghost before = builder.clauses();
        builder = builder.tag_filter(params.filters[i].0.as_str(), params.filters[i].1.as_str());
        i = i + 1;
        proof {
            assert(builder.clauses() =~= head + Seq::new(
                i as nat,
                |k: int| tag_clause(params.filters@[k].0@, params.filters@[k].1@),
            ));
        }
    }
    let ghost tagged = builder.clauses();
    let mut j: usize = 0;
    while j < params.numeric_filters.len()
        invariant
            j <= params.numeric_filters.len(),
            builder.clauses() == tagged + Seq::new(
                j as nat,
                |k: int|
                    range_clause(
                        params.numeric_filters@[k].0@,
                        params.numeric_filters@[k].1 as int,
                        params.numeric_filters@[k].2 as int,
                    ),
            ),
        decreases params.numeric_filters.len() - j,
    {
        builder = builder.numeric_range(
            params.numeric_filters[j].0.as_str(),
            params.numeric_filters[j].1,
            params.numeric_filters[j].2,
        );
        j = j + 1;
        proof {
            assert(builder.clauses() =~= tagged + Seq::new(
                j as nat,
                |k: int|
                    range_clause(
                        params.numeric_filters@[k].0@,
                        params.numeric_filters@[k].1 as int,
                        params.numeric_filters@[k].2 as int,
                    ),
            ));
        }
    }
    proof {
        assert(builder.clauses() =~= query_clauses(*params));
    }
    builder.build()
}

/// The words that follow a column's type: for text, the weight, the suffix
/// trie of a fuzzy column and the phonetic matcher; for tags and numbers,
/// whether they sort; for vectors, the fixed parameters of the index.
pub open spec fn type_options(f: FieldModel) -> Seq<Seq<char>> {
    match f.field_type {
        IndexType::Text => seq!["TEXT"@] + (match f.weight {
            Some(w) => seq!["WEIGHT"@, milli_decimal(w as nat)],
            None => Seq::<Seq<char>>::empty(),
        }) + (if f.fuzzy {
            seq!["WITHSUFFIXTRIE"@]
        } else {
            Seq::<Seq<char>>::empty()
        }) + (if f.phonetic {
            seq!["PHONETIC"@, "dm:en"@]
        } else {
            Seq::<Seq<char>>::empty()
        }),
        IndexType::Tag => if f.sortable {
            seq!["TAG"@, "SORTABLE"@]
        } else {
            seq!["TAG"@]
        },
        IndexType::Numeric => if f.sortable {
            seq!["NUMERIC"@, "SORTABLE"@]
        } else {
            seq!["NUMERIC"@]
        },
        IndexType::Vector => seq!["VECTOR"@, "HNSW"@, "6"@, "TYPE"@, "FLOAT32"@, "DIM"@, "512"@],
        IndexType::Geo => seq!["GEO"@],
    }
}

/// The words that register one column: its path in the document, its alias,
/// its type and the type's options.
pub open spec fn field_words(f: FieldModel) -> Seq<Seq<char>> {
    seq!["$."@ + f.name, "AS"@, f.name] + type_options(f)
}

/// The words that register a list of columns, one column after the other.
pub open spec fn schema_words(fields: Seq<FieldModel>) -> Seq<Seq<char>>
    decreases fields.len(),
{
    if fields.len() == 0 {
        Seq::<Seq<char>>::empty()
    } else {
        schema_words(fields.drop_last()) + field_words(fields.last())
    }
}

/// The columns of the knowledge index.
pub open spec fn knowledge_schema() -> Seq<FieldModel> {
    seq![
        FieldModel { weight: Some(2000u32), fuzzy: true, phonetic: true, ..plain_field("content"@, IndexType::Text) },
        FieldModel { weight: Some(1500u32), fuzzy: true, ..plain_field("key"@, IndexType::Text) },
        FieldModel { weight: Some(1000u32), fuzzy: true, ..plain_field("tags"@, IndexType::Text) },
        FieldModel { sortable: true, ..plain_field("category"@, IndexType::Tag) },
        FieldModel { sortable: true, ..plain_field("agent_id"@, IndexType::Tag) },
        FieldModel { sortable: true, ..plain_field("created_at"@, IndexType::Numeric) },
        FieldModel { sortable: true, ..plain_field("access_count"@, IndexType::Numeric) },
        plain_field("embeddings"@, IndexType::Vector),
    ]
}

/// The views of a list of columns.
pub open spec fn field_models(fields: Seq<IndexField>) -> Seq<FieldModel> {
    fields.map_values(|f: IndexField| f@)
}

/// Why a search operation failed.
#[derive(Debug)]
pub enum SearchError {
    /// The service refused to create the index.
    CreateFailed(String),
    /// The service refused the query.
    QueryFailed(String),
}

/// What a failed search operation reports.
pub open spec fn error_message(e: SearchError) -> Seq<char> {
    match e {
        SearchError::CreateFailed(reason) => reason@,
        SearchError::QueryFailed(reason) => "Search query failed: "@ + reason@,
    }
}

impl SearchError {
    /// What the failure reports: the service's own words for a refused
    /// creation, and those words after a heading for a refused query.
    pub fn message(&self) -> (text: String)
        ensures
            text@ == error_message(*self),
    {
        match self {
            SearchError::CreateFailed(reason) => reason.clone(),
            SearchError::QueryFailed(reason) => crate::text::followed_by("Search query failed: ", reason.as_str()),
        }
    }
}

/// Whether the index is registered with the service. A search registers it
/// first while it is not; a registration that failed is tried again before
/// the next search.
#[derive(Debug, Clone, Copy, PartialEq, Eq, Structural)]
pub struct Registration {
    pub done: bool,
}

impl Registration {
    /// Before the first registration.
    pub fn new() -> (r: Registration)
        ensures
            !r.done,
    {
        Registration { done: false }
    }

    /// Whether the index has yet to be registered.
    pub fn pending(&self) -> (pending: bool)
        ensures
            pending == !self.done,
    {
        !self.done
    }

    /// Takes in how a registration ended: one that succeeded is not made
    /// again, one that failed stays pending.
    pub fn record(&mut self, outcome: &Result<(), SearchError>)
        ensures
            final(self).done == (old(self).done || *outcome is Ok),
    {
        match outcome {
            Ok(_) => {
                self.done = true;
            },
            Err(_) => {},
        }
    }
}

/// A named index of the search service.
pub struct SearchIndex {
    pub name: String,
    pub prefix: String,
    pub language: String,
    pub score_field: String,
}

/// The command that removes an index.
pub open spec fn drop_words(index: SearchIndex) -> Seq<Seq<char>> {
    seq!["FT.DROPINDEX"@, index.name@]
}

/// The command that creates an index over JSON documents with the columns
/// of the knowledge schema.
pub open spec fn create_words(index: SearchIndex) -> Seq<Seq<char>> {
    seq![
        "FT.CREATE"@,
        index.name@,
        "ON"@,
        "JSON"@,
        "PREFIX"@,
        "1"@,
        index.prefix@,
        "LANGUAGE"@,
        index.language@,
        "SCORE"@,
        index.score_field@,
        "SCHEMA"@,
    ] + schema_words(knowledge_schema())
}

/// The words that ask for sorting.
pub open spec fn sort_words(p: SearchParams) -> Seq<Seq<char>> {
    match p.sort_by {
        Some(field) => seq!["SORTBY"@, field@, if p.sort_asc { "ASC"@ } else { "DESC"@ }],
        None => Seq::<Seq<char>>::empty(),
    }
}

/// The words that set the minimum score.
pub open spec fn score_words(p: SearchParams) -> Seq<Seq<char>> {
    match p.min_score {
        Some(m) => seq!["MINSCORE"@, milli_decimal(m as nat)],
        None => Seq::<Seq<char>>::empty(),
    }
}

/// The words that say what to return: the columns named, or else the whole
/// document.
pub open spec fn return_words(p: SearchParams) -> Seq<Seq<char>> {
    match p.return_fields {
        Some(fields) => seq!["RETURN"@, decimal(fields@.len())] + texts(fields@),
        None => seq!["RETURN"@, "1"@, "$"@],
    }
}

/// The offset of a search that names none is zero; its limit, ten.
pub open spec fn page_words(p: SearchParams) -> Seq<Seq<char>> {
    seq![
        "LIMIT"@,
        decimal(
            match p.offset {
                Some(n) => n as nat,
                None => 0nat,
            },
        ),
        decimal(
            match p.limit {
                Some(n) => n as nat,
                None => 10nat,
            },
        ),
    ]
}

/// The search command: the index, the query expression, the page, then
/// sorting, minimum score and what to return.
pub open spec fn search_words(index: SearchIndex, p: SearchParams) -> Seq<Seq<char>> {
    seq!["FT.SEARCH"@, index.name@, expression(query_clauses(p))] + page_words(p) + sort_words(p) + score_words(p)
        + return_words(p)
}

impl SearchIndex {
    /// The index `name` over the knowledge documents.
    pub fn new(name: &str) -> (index: SearchIndex)
        ensures
            index.name@ == name@,
            index.prefix@ == "knowledge:"@,
            index.language@ == "english"@,
            index.score_field@ == "_score"@,
    {
        SearchIndex {
            name: String::from_str(name),
            prefix: String::from_str("knowledge:"),
            language: String::from_str("english"),
            score_field: String::from_str("_score"),
        }
    }

    /// The words that register one column.
    pub fn field_def(&self, field: &IndexField) -> (args: Vec<String>)
        ensures
            texts(args@) == field_words(field@),
    {
        let mut args: Vec<String> = Vec::new();
        let mut path = String::from_str("$.");
        path.append(field.name.as_str());
        push_owned(&mut args, path);
        push_text(&mut args, "AS");
        push_text(&mut args, field.name.as_str());
        match field.field_type {
            IndexType::Text => {
                push_text(&mut args, "TEXT");
                match field.weight {
                    Some(w) => {
                        push_text(&mut args, "WEIGHT");
                        push_owned(&mut args, crate::text::milli_text(w as u64));
                    },
                    None => {},
                }
                if field.fuzzy {
                    push_text(&mut args, "WITHSUFFIXTRIE");
                }
                if field.phonetic {
                    push_text(&mut args, "PHONETIC");
                    push_text(&mut args, "dm:en");
                }
            },
            IndexType::Tag => {
                push_text(&mut args, "TAG");
                if field.sortable {
                    push_text(&mut args, "SORTABLE");
                }
            },
            IndexType::Numeric => {
                push_text(&mut args, "NUMERIC");
                if field.sortable {
                    push_text(&mut args, "SORTABLE");
                }
            },
            IndexType::Vector => {
                push_text(&mut args, "VECTOR");
                push_text(&mut args, "HNSW");
                push_text(&mut args, "6");
                push_text(&mut args, "TYPE");
                push_text(&mut args, "FLOAT32");
                push_text(&mut args, "DIM");
                push_text(&mut args, "512");
            },
            IndexType::Geo => {
                push_text(&mut args, "GEO");
            },
        }
        proof {
            assert(texts(args@) =~= field_words(field@));
        }
        args
    }

    /// The columns of the knowledge index, in the order in which they are
    /// registered.
    pub fn schema() -> (fields: Vec<IndexField>)
        ensures
            field_models(fields@) == knowledge_schema(),
    {
        let mut fields: Vec<IndexField> = Vec::new();
        fields.push(IndexField::new("content", IndexType::Text).weight(2000).fuzzy().phonetic());
        fields.push(IndexField::new("key", IndexType::Text).weight(1500).fuzzy());
        fields.push(IndexField::new("tags", IndexType::Text).weight(1000).fuzzy());
        fields.push(IndexField::new("category", IndexType::Tag).sortable());
        fields.push(IndexField::new("agent_id", IndexType::Tag).sortable());
        fields.push(IndexField::new("created_at", IndexType::Numeric).sortable());
        fields.push(IndexField::new("access_count", IndexType::Numeric).sortable());
        fields.push(IndexField::new("embeddings", IndexType::Vector));
        proof {
            assert(field_models(fields@) =~= knowledge_schema());
        }
        fields
    }

    /// The two commands of a registration, in the order in which they are
    /// issued: the one that drops an index of this name, whose failure is
    /// ignored, and the one that creates the index.
    pub fn create(&self) -> (commands: (Vec<String>, Vec<String>))
        ensures
            texts(commands.0@) == drop_words(*self),
            texts(commands.1@) == create_words(*self),
    {
        let mut drop: Vec<String> = Vec::new();
        push_text(&mut drop, "FT.DROPINDEX");
        push_text(&mut drop, self.name.as_str());
        proof {
            assert(texts(drop@) =~= drop_words(*self));
        }
        let mut args: Vec<String> = Vec::new();
        push_text(&mut args, "FT.CREATE");
        push_text(&mut args, self.name.as_str());
        push_text(&mut args, "ON");
        push_text(&mut args, "JSON");
        push_text(&mut args, "PREFIX");
        push_text(&mut args, "1");
        push_text(&mut args, self.prefix.as_str());
        push_text(&mut args, "LANGUAGE");
        push_text(&mut args, self.language.as_str());
        push_text(&mut args, "SCORE");
        push_text(&mut args, self.score_field.as_str());
        push_text(&mut args, "SCHEMA");
        let ghost head = texts(args@);
        let fields = SearchIndex::schema();
        let mut i: usize = 0;
        while i < fields.len()
            invariant
                i <= fields.len(),
                texts(args@) == head + schema_words(field_models(fields@).take(i as int)),
            decreases fields.len() - i,
        {
            let mut words = self.field_def(&fields[i]);
            let ghost before = args@;
            let ghost added = words@;
            args.append(&mut words);
            proof {
                let all = field_models(fields@);
                assert(all.take(i as int + 1).drop_last() =~= all.take(i as int));
                assert(all.take(i as int + 1).last() == fields@[i as int]@);
                assert(texts(before + added) =~= texts(before) + texts(added));
                assert(texts(args@) =~= head + schema_words(all.take(i as int + 1)));
            }
            i = i + 1;
        }
        proof {
            assert(field_models(fields@).take(fields.len() as int) =~= field_models(fields@));
            assert(texts(args@) =~= create_words(*self));
        }
        (drop, args)
    }

    /// What a registration comes to once the service has answered the
    /// command that creates the index: its refusal fails the registration.
    pub fn created(outcome: Result<(), String>) -> (r: Result<(), SearchError>)
        ensures
            match outcome {
                Ok(_) => r is Ok,
                Err(e) => r == Err::<(), SearchError>(SearchError::CreateFailed(e)),
            },
    {
        match outcome {
            Ok(_) => Ok(()),
            Err(e) => Err(SearchError::CreateFailed(e)),
        }
    }

    /// What a search comes to once the service has answered its command:
    /// the reply to decode, or the failure of the query.
    pub fn searched<T>(outcome: Result<T, String>) -> (r: Result<T, SearchError>)
        ensures
            match outcome {
                Ok(reply) => r == Ok::<T, SearchError>(reply),
                Err(e) => r == Err::<T, SearchError>(SearchError::QueryFailed(e)),
            },
    {
        match outcome {
            Ok(reply) => Ok(reply),
            Err(e) => Err(SearchError::QueryFailed(e)),
        }
    }

    /// The parameters of a knowledge search: the newest entries first, the
    /// four columns that identify an entry, fuzzy matching, from the first
    /// match on.
    pub fn search(&self, args: &SearchKnowledgeArgs) -> (p: SearchParams)
        ensures
            p.query@ == args.query@,
            p.filters@.len() == 0,
            p.numeric_filters@.len() == 0,
            p.limit == args.limit,
            p.offset == Some(0usize),
            p.sort_by is Some && p.sort_by.unwrap()@ == "created_at"@,
            !p.sort_asc,
            p.min_score == Some(MIN_SCORE),
            p.return_fields is Some && texts(p.return_fields.unwrap()@) == seq![
                "id"@,
                "agent_id"@,
                "category"@,
                "content"@,
            ],
            p.summarize,
            p.highlight,
            p.fuzzy_distance == Some(DEFAULT_FUZZY_DISTANCE),
    {
        let mut fields: Vec<String> = Vec::new();
        push_text(&mut fields, "id");
        push_text(&mut fields, "agent_id");
        push_text(&mut fields, "category");
        push_text(&mut fields, "content");
        proof {
            assert(texts(fields@) =~= seq!["id"@, "agent_id"@, "category"@, "content"@]);
        }
        SearchParams {
            query: args.query.clone(),
            filters: Vec::new(),
            numeric_filters: Vec::new(),
            limit: args.limit,
            offset: Some(0),
            sort_by: Some(String::from_str("created_at")),
            sort_asc: false,
            min_score: Some(MIN_SCORE),
            return_fields: Some(fields),
            summarize: true,
            highlight: true,
            fuzzy_distance: Some(DEFAULT_FUZZY_DISTANCE),
        }
    }

    /// The command that runs a search on this index.
    pub fn advanced_search(&self, params: &SearchParams) -> (args: Vec<String>)
        ensures
            texts(args@) == search_words(*self, *params),
    {
        let mut args: Vec<String> = Vec::new();
        push_text(&mut args, "FT.SEARCH");
        push_text(&mut args, self.name.as_str());
        push_owned(&mut args, build_query(params));
        push_page(&mut args, params);
        push_sort(&mut args, params);
        push_score(&mut args, params);
        push_return(&mut args, params);
        proof {
            assert(texts(args@) =~= search_words(*self, *params));
        }
        args
    }
}

fn push_page(args: &mut Vec<String>, params: &SearchParams)
    ensures
        texts(final(args)@) == texts(old(args)@) + page_words(*params),
{
    push_text(args, "LIMIT");
    let offset: usize = match params.offset {
        Some(n) => n,
        None => 0,
    };
    let limit: usize = match params.limit {
        Some(n) => n,
        None => 10,
    };
    push_owned(args, crate::text::u64_text(offset as u64));
    push_owned(args, crate::text::u64_text(limit as u64));
    proof {
        assert(texts(args@) =~= texts(old(args)@) + page_words(*params));
    }
}

fn push_sort(args: &mut Vec<String>, params: &SearchParams)
    ensures
        texts(final(args)@) == texts(old(args)@) + sort_words(*params),
{
    match &params.sort_by {
        Some(field) => {
            push_text(args, "SORTBY");
            push_text(args, field.as_str());
            if params.sort_asc {
                push_text(args, "ASC");
            } else {
                push_text(args, "DESC");
            }
        },
        None => {},
    }
    proof {
        assert(texts(args@) =~= texts(old(args)@) + sort_words(*params));
    }
}

fn push_score(args: &mut Vec<String>, params: &SearchParams)
    ensures
        texts(final(args)@) == texts(old(args)@) + score_words(*params),
{
    match params.min_score {
        Some(m) => {
            push_text(args, "MINSCORE");
            push_owned(args, crate::text::milli_text(m as u64));
        },
        None => {},
    }
    proof {
        assert(texts(args@) =~= texts(old(args)@) + score_words(*params));
    }
}

fn push_return(args: &mut Vec<String>, params: &SearchParams)
    ensures
        texts(final(args)@) == texts(old(args)@) + return_words(*params),
{
    match &params.return_fields {
        Some(fields) => {
            push_text(args, "RETURN");
            push_owned(args, crate::text::u64_text(fields.len() as u64));
            let ghost lead = texts(args@);
            let mut i: usize = 0;
            while i < fields.len()
                invariant
                    i <= fields.len(),
                    texts(args@) == lead + texts(fields@).take(i as int),
                decreases fields.len() - i,
            {
                push_text(args, fields[i].as_str());
                i = i + 1;
                proof {
                    assert(texts(args@) =~= lead + texts(fields@).take(i as int));
                }
            }
            proof {
                assert(texts(fields@).take(fields.len() as int) =~= texts(fields@));
                assert(texts(args@) =~= texts(old(args)@) + return_words(*params));
            }
        },
        None => {
            push_text(args, "RETURN");
            push_text(args, "1");
            push_text(args, "$");
            proof {
                assert(texts(args@) =~= texts(old(args)@) + return_words(*params));
            }
        },
    }
}

} // verus!
