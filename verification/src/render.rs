//! The serializer: a specification of the exact output text, clause by
//! clause, and the executable renderer proved against it.
//!
//! The output is a concatenation of zero or more clause fragments, each
//! terminated by a semicolon, in a fixed order (fields, exclude, where,
//! limit, offset, sort, search). Fragments touch directly: the trailing
//! semicolon is the only separator.
use vstd::prelude::*;
use vstd::string::StringExecFns;

use crate::text::dec_str;
use crate::text::join_commas;
use crate::text::join_with_commas;
use crate::text::u128_to_decimal;
use crate::opt_search_model;
use crate::opt_sort_model;
use crate::Query;
use crate::QueryModel;
use crate::Search;
use crate::Sort;
use crate::SortOrder;
use crate::SearchModel;
use crate::SortModel;

verus! {

/// A name-list clause: the keyword (with its trailing space) followed by
/// the comma-joined names and a semicolon, or nothing when the list is
/// empty.
pub open spec fn list_clause(keyword: Seq<char>, items: Seq<Seq<char>>) -> Seq<char> {
    if items.len() == 0 {
        Seq::empty()
    } else {
        keyword + join_commas(items) + ";"@
    }
}

/// The `fields` clause, or nothing when no field was selected.
pub open spec fn fields_clause(fields: Seq<Seq<char>>) -> Seq<char> {
    list_clause("fields "@, fields)
}

/// The `exclude` clause, or nothing when no field was excluded.
pub open spec fn exclude_clause(exclude: Seq<Seq<char>>) -> Seq<char> {
    list_clause("exclude "@, exclude)
}

/// The `where` clause with the raw filter text emitted verbatim, or
/// nothing when no filter was set.
pub open spec fn where_clause(where_raw: Option<Seq<char>>) -> Seq<char> {
    match where_raw {
        Some(w) => "where "@ + w + ";"@,
        None => Seq::empty(),
    }
}

/// An integer clause: the keyword (with its trailing space) followed by
/// the value in decimal and a semicolon, or nothing when the value is
/// absent.
pub open spec fn int_clause(keyword: Seq<char>, value: Option<u128>) -> Seq<char> {
    match value {
        Some(n) => keyword + dec_str(n as nat) + ";"@,
        None => Seq::empty(),
    }
}

/// The `limit` clause, or nothing when no limit was set.
pub open spec fn limit_clause(limit: Option<u128>) -> Seq<char> {
    int_clause("limit "@, limit)
}

/// The `offset` clause, or nothing when no offset was set.
pub open spec fn offset_clause(offset: Option<u128>) -> Seq<char> {
    int_clause("offset "@, offset)
}

/// The direction token: exactly `asc` for ascending, `desc` for
/// descending.
pub open spec fn direction_token(d: SortOrder) -> Seq<char> {
    match d {
        SortOrder::Ascending => "asc"@,
        SortOrder::Descending => "desc"@,
    }
}

/// The `sort` clause, or nothing when no sort was set.
pub open spec fn sort_clause(sort: Option<SortModel>) -> Seq<char> {
    match sort {
        Some(so) => "sort "@ + so.field + " "@ + direction_token(so.direction) + ";"@,
        None => Seq::empty(),
    }
}

/// The column prefix of a `search` clause: the column name followed by one
/// space, or nothing when the column is absent or the empty string.
pub open spec fn search_column_prefix(column: Option<Seq<char>>) -> Seq<char> {
    match column {
        Some(c) => if c.len() == 0 {
            Seq::empty()
        } else {
            c + " "@
        },
        None => Seq::empty(),
    }
}

/// The `search` clause, or nothing when no search was set. The query text
/// is wrapped in literal double quotes with no internal escaping: embedded
/// quote characters pass through unchanged.
pub open spec fn search_clause(search: Option<SearchModel>) -> Seq<char> {
    match search {
        Some(se) => "search "@ + search_column_prefix(se.column) + "\""@ + se.query + "\";"@,
        None => Seq::empty(),
    }
}

/// The serialized text of a query: its clauses in the fixed order
/// fields, exclude, where, limit, offset, sort, search, each present
/// exactly when its data is present, concatenated with no separator
/// beyond each clause's trailing semicolon.
pub open spec fn spec_serialize(m: QueryModel) -> Seq<char> {
    fields_clause(m.fields) + exclude_clause(m.exclude) + where_clause(m.where_raw) + limit_clause(
        m.limit,
    ) + offset_clause(m.offset) + sort_clause(m.sort) + search_clause(m.search)
}

/// Appends a name-list clause, or nothing when the list is empty.
fn append_list_clause(out: &mut String, keyword: &str, items: &Vec<String>)
    ensures
        final(out)@ == old(out)@ + list_clause(keyword@, items.deep_view()),
{
    if items.len() > 0 {
        out.append(keyword);
        let list = join_with_commas(items);
        out.append(list.as_str());
        out.append(";");
    }
    proof {
        assert(out@ =~= old(out)@ + list_clause(keyword@, items.deep_view()));
    }
}

/// Appends the `where` clause, or nothing when no filter was set.
fn append_where_clause(out: &mut String, where_raw: &Option<String>)
    ensures
        final(out)@ == old(out)@ + where_clause(where_raw.deep_view()),
{
    match where_raw {
        Some(w) => {
            out.append("where ");
            out.append(w.as_str());
            out.append(";");
        },
        None => {},
    }
    proof {
        assert(out@ =~= old(out)@ + where_clause(where_raw.deep_view()));
    }
}

/// Appends an integer clause, or nothing when the value is absent.
fn append_int_clause(out: &mut String, keyword: &str, value: Option<u128>)
    ensures
        final(out)@ == old(out)@ + int_clause(keyword@, value),
{
    match value {
        Some(n) => {
            out.append(keyword);
            let digits = u128_to_decimal(n);
            out.append(digits.as_str());
            out.append(";");
        },
        None => {},
    }
    proof {
        assert(out@ =~= old(out)@ + int_clause(keyword@, value));
    }
}

/// Appends the `sort` clause, or nothing when no sort was set.
fn append_sort_clause(out: &mut String, sort: &Option<Sort>)
    ensures
        final(out)@ == old(out)@ + sort_clause(opt_sort_model(*sort)),
{
    match sort {
        Some(so) => {
            out.append("sort ");
            out.append(so.field.as_str());
            out.append(" ");
            match &so.direction {
                SortOrder::Ascending => out.append("asc"),
                SortOrder::Descending => out.append("desc"),
            }
            out.append(";");
        },
        None => {},
    }
    proof {
        assert(out@ =~= old(out)@ + sort_clause(opt_sort_model(*sort)));
    }
}

/// Appends the `search` clause, or nothing when no search was set.
fn append_search_clause(out: &mut String, search: &Option<Search>)
    ensures
        final(out)@ == old(out)@ + search_clause(opt_search_model(*search)),
{
    match search {
        Some(se) => {
            out.append("search ");
            match &se.column {
                Some(c) => {
                    if !c.as_str().is_empty() {
                        out.append(c.as_str());
                        out.append(" ");
                    }
                },
                None => {},
            }
            out.append("\"");
            out.append(se.query.as_str());
            out.append("\";");
        },
        None => {},
    }
    proof {
        assert(out@ =~= old(out)@ + search_clause(opt_search_model(*search)));
    }
}

impl Query {
    /// Renders this query as its serialized text. Serialization is a pure
    /// read: the query itself is untouched, and the output is a function
    /// of the query value alone.
    pub fn serialize(&self) -> (r: String)
        ensures
            r@ == spec_serialize(self@),
    {
        let mut out = String::new();
        append_list_clause(&mut out, "fields ", &self.fields);
        append_list_clause(&mut out, "exclude ", &self.exclude);
        append_where_clause(&mut out, &self.where_raw);
        append_int_clause(&mut out, "limit ", self.limit);
        append_int_clause(&mut out, "offset ", self.offset);
        append_sort_clause(&mut out, &self.sort);
        append_search_clause(&mut out, &self.search);
        proof {
            assert(out@ =~= spec_serialize(self@));
        }
        out
    }
}

} // verus!
