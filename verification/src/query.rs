//! The query of a Torznab request, and what it asks for.

use crate::text::{
    chars_of, parse_i64, parse_trimmed_i64, parse_trimmed_u32, parse_u32, parse_u32_chars,
    same_chars, same_text, subrange_of, trim, trimmed,
};
use crate::torznab::{
    is_supported_category, ANIME_CATEGORY_ID, ANIME_SUBCATEGORY_ID, MOVIE_CATEGORY_ID,
};
use vstd::prelude::*;

verus! {

/// The parameters of a Torznab request, as they were sent.
#[derive(Debug, Clone)]
pub struct TorznabQuery {
    /// The parameter `t`.
    pub operation: Option<String>,
    pub cat: Option<String>,
    pub limit: Option<usize>,
    pub offset: Option<usize>,
    pub imdbid: Option<String>,
    pub season: Option<String>,
    /// The parameter `tvdbid`.
    pub tvdb_id: Option<String>,
    /// The parameter `tmdbid`.
    pub tmdb_id: Option<String>,
    /// The parameter `q`.
    pub query: Option<String>,
}

/// What a request asks the indexer to do.
#[derive(Debug, Clone, Copy)]
pub enum TorznabOperation<'a> {
    Caps,
    Search,
    TvSearch,
    MovieSearch,
    Unsupported(&'a str),
}

/// The operation that a name stands for, where it stands for one.
pub open spec fn operation_named(name: Seq<char>) -> Option<TorznabOperation<'static>> {
    if name == "caps"@ {
        Some(TorznabOperation::Caps)
    } else if name == "search"@ {
        Some(TorznabOperation::Search)
    } else if name == "tvsearch"@ || name == "tv-search"@ {
        Some(TorznabOperation::TvSearch)
    } else if name == "movie"@ || name == "movie-search"@ || name == "moviesearch"@ {
        Some(TorznabOperation::MovieSearch)
    } else {
        None
    }
}

impl TorznabQuery {
    /// The operation asked for; a series search where none is named.
    pub fn operation(&self) -> (r: TorznabOperation<'_>)
        ensures
            match self.operation {
                None => r is TvSearch,
                Some(name) => match operation_named(name@) {
                    Some(TorznabOperation::Caps) => r is Caps,
                    Some(TorznabOperation::Search) => r is Search,
                    Some(TorznabOperation::TvSearch) => r is TvSearch,
                    Some(TorznabOperation::MovieSearch) => r is MovieSearch,
                    _ => r matches TorznabOperation::Unsupported(other) && other@ == name@,
                },
            },
    {
        match &self.operation {
            None => TorznabOperation::TvSearch,
            Some(name) => {
                let name = name.as_str();
                if same_text(name, "caps") {
                    TorznabOperation::Caps
                } else if same_text(name, "search") {
                    TorznabOperation::Search
                } else if same_text(name, "tvsearch") || same_text(name, "tv-search") {
                    TorznabOperation::TvSearch
                } else if same_text(name, "movie") || same_text(name, "movie-search") || same_text(
                    name,
                    "moviesearch",
                ) {
                    TorznabOperation::MovieSearch
                } else {
                    TorznabOperation::Unsupported(name)
                }
            },
        }
    }

    /// The TVDB id asked for, where one is given that reads as a number.
    pub fn tvdb_identifier(&self) -> (r: Option<i64>)
        ensures
            r == match self.tvdb_id {
                Some(value) => parse_i64(trim(value@)),
                None => None,
            },
    {
        match &self.tvdb_id {
            Some(value) => parse_trimmed_i64(value.as_str()),
            None => None,
        }
    }

    /// The TMDB id asked for, where one is given that reads as a number.
    pub fn tmdb_identifier(&self) -> (r: Option<i64>)
        ensures
            r == match self.tmdb_id {
                Some(value) => parse_i64(trim(value@)),
                None => None,
            },
    {
        match &self.tmdb_id {
            Some(value) => parse_trimmed_i64(value.as_str()),
            None => None,
        }
    }

    /// The season asked for, where one is given that reads as a number.
    pub fn season_number(&self) -> (r: Option<u32>)
        ensures
            r == match self.season {
                Some(value) => parse_u32(trim(value@)),
                None => None,
            },
    {
        match &self.season {
            Some(value) => parse_trimmed_u32(value.as_str()),
            None => None,
        }
    }
}

/// The end of the field that starts at `from`: the index of the next comma,
/// or the length of `s`.
pub open spec fn field_end(s: Seq<char>, from: int) -> int
    decreases s.len() - from,
{
    if 0 <= from < s.len() && s[from] != ',' {
        field_end(s, from + 1)
    } else {
        from
    }
}

/// The fields of a list written with commas between them. A list has one
/// field more than it has commas; a field may be empty.
pub open spec fn comma_fields(s: Seq<char>) -> Seq<Seq<char>>
    decreases s.len(),
{
    let end = field_end(s, 0);
    if 0 <= end < s.len() {
        seq![s.take(end)] + comma_fields(s.skip(end + 1))
    } else {
        seq![s]
    }
}

/// A field of a category filter that lets every category through.
pub open spec fn names_every_category(field: Seq<char>) -> bool {
    trim(field) == "0"@
}

/// A field of a category filter that names a category of the indexer.
pub open spec fn names_supported_category(field: Seq<char>) -> bool {
    match parse_u32(trim(field)) {
        Some(id) => is_supported_category(id),
        None => false,
    }
}

/// Whether the filter lets the indexer's categories through: it names none
/// at all (every field is blank), or one of its fields is `0` or the id of a
/// category of the indexer.
pub open spec fn filter_accepts(filter: Seq<char>) -> bool {
    let fields = comma_fields(filter);
    ||| forall|k: int| 0 <= k < fields.len() ==> trim(#[trigger] fields[k]).len() == 0
    ||| exists|k: int|
        0 <= k < fields.len() && (names_every_category(#[trigger] fields[k])
            || names_supported_category(fields[k]))
}

/// The texts of a list of runs of characters.
pub open spec fn texts_of(runs: Seq<Vec<char>>) -> Seq<Seq<char>> {
    Seq::new(runs.len(), |i: int| runs[i]@)
}

proof fn lemma_field_end(s: Seq<char>, from: int)
    requires
        0 <= from <= s.len(),
    ensures
        from <= field_end(s, from) <= s.len(),
    decreases s.len() - from,
{
    if from < s.len() && s[from] != ',' {
        lemma_field_end(s, from + 1);
    }
}

proof fn lemma_field_end_shift(s: Seq<char>, start: int, from: int)
    requires
        0 <= start <= from <= s.len(),
    ensures
        field_end(s.skip(start), from - start) == field_end(s, from) - start,
    decreases s.len() - from,
{
    if from < s.len() && s[from] != ',' {
        assert(s.skip(start)[from - start] == s[from]);
        lemma_field_end_shift(s, start, from + 1);
    } else if from < s.len() {
        assert(s.skip(start)[from - start] == s[from]);
    }
}

/// Splits a list at its commas.
pub fn split_at_commas(list: &Vec<char>) -> (r: Vec<Vec<char>>)
    ensures
        texts_of(r@) == comma_fields(list@),
{
    let n = list.len();
    let mut fields: Vec<Vec<char>> = Vec::new();
    let mut start: usize = 0;
    assert(list@.skip(0) =~= list@);
    loop
        invariant
            start <= n == list.len(),
            comma_fields(list@) == texts_of(fields@) + comma_fields(list@.skip(start as int)),
        decreases n - start,
    {
        let mut end: usize = start;
        while end < n && list[end] != ','
            invariant
                start <= end <= n == list.len(),
                field_end(list@, start as int) == field_end(list@, end as int),
            decreases n - end,
        {
            end += 1;
        }
        let ghost rest = list@.skip(start as int);
        proof {
            lemma_field_end_shift(list@, start as int, start as int);
            assert(field_end(rest, 0) == end - start);
        }
        let field = subrange_of(list, start, end);
        assert(field@ =~= rest.take(end - start));
        let ghost before = texts_of(fields@);
        fields.push(field);
        assert(texts_of(fields@) =~= before + seq![field@]);
        if end >= n {
            assert(rest.take(end - start) =~= rest);
            assert(comma_fields(rest) =~= seq![rest]);
            assert(texts_of(fields@) =~= comma_fields(list@));
            return fields;
        }
        proof {
            assert(rest.skip(end - start + 1) =~= list@.skip(end + 1));
            assert(comma_fields(rest) =~= seq![rest.take(end - start)] + comma_fields(
                list@.skip(end + 1),
            ));
        }
        start = end + 1;
    }
}

/// Tells whether a category filter lets the indexer's categories through.
/// No filter lets them through.
pub fn category_filter_matches(cat_param: &Option<String>) -> (r: bool)
    ensures
        r == match *cat_param {
            Some(filter) => filter_accepts(filter@),
            None => true,
        },
{
    let filter = match cat_param {
        Some(filter) => filter,
        None => {
            return true;
        },
    };
    let chars = chars_of(filter.as_str());
    let fields = split_at_commas(&chars);
    let zero = chars_of("0");
    proof {
        reveal_strlit("0");
    }
    let ghost views = texts_of(fields@);
    let mut any_values = false;
    let mut matches_supported = false;
    let mut i: usize = 0;
    while i < fields.len()
        invariant
            i <= fields.len(),
            views == texts_of(fields@),
            views == comma_fields(filter@),
            *cat_param == Some(*filter),
            zero@ == "0"@,
            zero@.len() == 1,
            any_values == exists|k: int| 0 <= k < i && trim(#[trigger] views[k]).len() > 0,
            matches_supported == exists|k: int|
                0 <= k < i && names_supported_category(#[trigger] views[k]),
            forall|k: int| 0 <= k < i ==> !names_every_category(#[trigger] views[k]),
        decreases fields.len() - i,
    {
        let inner = trimmed(&fields[i]);
        assert(inner@ == trim(views[i as int]));
        if inner.len() > 0 {
            any_values = true;
            if same_chars(&inner, &zero) {
                assert(names_every_category(views[i as int]));
                return true;
            }
            if let Some(id) = parse_u32_chars(&inner) {
                if id == ANIME_CATEGORY_ID || id == ANIME_SUBCATEGORY_ID || id == MOVIE_CATEGORY_ID {
                    matches_supported = true;
                }
            }
        } else {
            assert(inner@.len() == 0);
        }
        i += 1;
    }
    if !any_values {
        assert(forall|k: int| 0 <= k < views.len() ==> trim(#[trigger] views[k]).len() == 0);
        true
    } else {
        proof {
            let w = choose|k: int| 0 <= k < views.len() && trim(#[trigger] views[k]).len() > 0;
            assert(trim(views[w]).len() > 0);
        }
        matches_supported
    }
}

} // verus!
