//! The parameters of requests, and the query that a list request is sent
//! with.

use crate::schema::{Author, Id, Progress, Series};
use base64::engine::general_purpose::STANDARD;
use base64::Engine;
use vstd::prelude::*;
use vstd::string::StringExecFns;

verus! {

/// The standard Base64 text, with padding, of the UTF-8 bytes of `text`.
pub uninterp spec fn base64_standard(text: Seq<char>) -> Seq<char>;

/// Calls `Engine::encode` of the `base64` crate on its `STANDARD` engine,
/// which turns the bytes of the text into Base64 text and whose result
/// depends on those bytes alone. The call fails only for an input so long
/// that the length of the result does not fit a `usize`, which no `str`
/// is.
#[verifier::external_body]
fn encode_base64(value: &str) -> (encoded: String)
    ensures
        encoded@ == base64_standard(value@),
{
    STANDARD.encode(value)
}

/// The ten decimal digits.
pub open spec fn digit(value: nat) -> char {
    seq!['0', '1', '2', '3', '4', '5', '6', '7', '8', '9'][value as int]
}

/// A natural number in decimal digits, without leading zeros.
pub open spec fn decimal(value: nat) -> Seq<char>
    decreases value,
{
    if value < 10 {
        seq![digit(value)]
    } else {
        decimal(value / 10).push(digit(value % 10))
    }
}

/// Calls `usize::to_string`, which writes the number in decimal digits.
#[verifier::external_body]
fn number_text(value: usize) -> (text: String)
    ensures
        text@ == decimal(value as nat),
{
    value.to_string()
}

/// A truth value in words.
pub open spec fn bool_text(value: bool) -> Seq<char> {
    if value {
        "true"@
    } else {
        "false"@
    }
}

/// The value of a `filter` parameter: the name of the filter, a dot, and
/// the value in Base64.
pub open spec fn filter_text(filter: Seq<char>, value: Seq<char>) -> Seq<char> {
    filter + "."@ + base64_standard(value)
}

/// One `filter` parameter for each value, in the order of the values.
pub open spec fn filters(filter: Seq<char>, values: Seq<Seq<char>>) -> Seq<
    (Seq<char>, Seq<char>),
> {
    values.map_values(|value: Seq<char>| ("filter"@, filter_text(filter, value)))
}

/// The texts of a list of identifiers.
pub open spec fn id_texts<T>(ids: Seq<Id<T>>) -> Seq<Seq<char>> {
    ids.map_values(|id: Id<T>| id.id@)
}

/// The texts of a list of strings.
pub open spec fn texts(values: Seq<String>) -> Seq<Seq<char>> {
    values.map_values(|value: String| value@)
}

/// A query as pairs of texts.
pub open spec fn pairs(query: Seq<(&'static str, String)>) -> Seq<(Seq<char>, Seq<char>)> {
    query.map_values(|pair: (&'static str, String)| (pair.0@, pair.1@))
}

/// The value of a `filter` parameter, made of the name of the filter and
/// of the value that is already in Base64: the two with a dot between
/// them.
pub fn filter_parameter(filter: &str, encoded: &str) -> (text: String)
    ensures
        text@ == filter@ + "."@ + encoded@,
{
    let mut text = filter.to_owned();
    text.append(".");
    text.append(encoded);
    text
}

/// Which items of a library a list request asks for.
#[derive(Debug, Clone)]
pub struct LibraryItemParams {
    /// How many items a page holds; zero asks for all items at once.
    pub limit: usize,
    /// The page asked for, counted from zero.
    pub page: usize,
    /// The field to sort by.
    pub sort: Option<String>,
    /// Whether to sort in descending order.
    pub desc: bool,
    pub filter: LibraryItemFilter,
}

/// The filters of a list request.
#[derive(Debug, Clone)]
pub struct LibraryItemFilter {
    pub authors: Vec<Id<Author>>,
    pub series: Vec<Id<Series>>,
    pub tags: Vec<String>,
    pub genres: Vec<String>,
    pub progress: Option<Progress>,
}

/// What the player tells the server when it asks to play an item.
#[derive(Debug, Clone)]
pub struct PlayLibraryItemParams {
    pub device_info: DeviceInfoParams,
    pub force_direct_play: bool,
    pub force_transcode: bool,
    pub supported_mime_types: Vec<String>,
    pub media_player: Option<String>,
}

/// What the player tells the server about the device it runs on.
#[derive(Debug, Clone)]
pub struct DeviceInfoParams {
    pub device_id: Option<String>,
    pub client_name: Option<String>,
    pub client_version: Option<String>,
    pub manufacturer: Option<String>,
    pub model: Option<String>,
    pub sdk_version: Option<u64>,
}

impl Default for LibraryItemFilter {
    fn default() -> (filter: Self)
        ensures
            filter.authors@.len() == 0,
            filter.series@.len() == 0,
            filter.tags@.len() == 0,
            filter.genres@.len() == 0,
            filter.progress is None,
    {
        LibraryItemFilter {
            authors: Vec::new(),
            series: Vec::new(),
            tags: Vec::new(),
            genres: Vec::new(),
            progress: None,
        }
    }
}

impl Default for LibraryItemParams {
    fn default() -> (params: Self)
        ensures
            params.limit == 0,
            params.page == 0,
            params.sort is None,
            !params.desc,
            params.filter.authors@.len() == 0,
            params.filter.series@.len() == 0,
            params.filter.tags@.len() == 0,
            params.filter.genres@.len() == 0,
            params.filter.progress is None,
    {
        LibraryItemParams {
            limit: 0,
            page: 0,
            sort: None,
            desc: false,
            filter: LibraryItemFilter::default(),
        }
    }
}

impl Default for DeviceInfoParams {
    fn default() -> (info: Self)
        ensures
            info.device_id is None,
            info.client_name is None,
            info.client_version is None,
            info.manufacturer is None,
            info.model is None,
            info.sdk_version is None,
    {
        DeviceInfoParams {
            device_id: None,
            client_name: None,
            client_version: None,
            manufacturer: None,
            model: None,
            sdk_version: None,
        }
    }
}

impl Default for PlayLibraryItemParams {
    fn default() -> (params: Self)
        ensures
            params.device_info.device_id is None,
            params.device_info.client_name is None,
            params.device_info.client_version is None,
            params.device_info.manufacturer is None,
            params.device_info.model is None,
            params.device_info.sdk_version is None,
            !params.force_direct_play,
            !params.force_transcode,
            params.supported_mime_types@.len() == 0,
            params.media_player is None,
    {
        PlayLibraryItemParams {
            device_info: DeviceInfoParams::default(),
            force_direct_play: false,
            force_transcode: false,
            supported_mime_types: Vec::new(),
            media_player: None,
        }
    }
}

impl LibraryItemParams {
    /// The query of the request: `limit` and `page` unless the limit is
    /// zero, `sort` if a field is named, `desc`, and then one `filter` for
    /// each author, series, tag and genre, in this order, and one for the
    /// progress if it is set.
    pub open spec fn query(self) -> Seq<(Seq<char>, Seq<char>)> {
        (if self.limit != 0 {
            seq![
                ("limit"@, decimal(self.limit as nat)),
                ("page"@, decimal(self.page as nat)),
            ]
        } else {
            Seq::empty()
        }) + (match self.sort {
            Some(sort) => seq![("sort"@, sort@)],
            None => Seq::empty(),
        }) + seq![("desc"@, bool_text(self.desc))] + filters(
            "authors"@,
            id_texts(self.filter.authors@),
        ) + filters("series"@, id_texts(self.filter.series@)) + filters(
            "tags"@,
            texts(self.filter.tags@),
        ) + filters("genres"@, texts(self.filter.genres@)) + (match self.filter.progress {
            Some(progress) => seq![("filter"@, filter_text("progress"@, progress.name()))],
            None => Seq::empty(),
        })
    }

    /// Builds the query of the request.
    pub fn build_query(self) -> (result: Vec<(&'static str, String)>)
        ensures
            pairs(result@) == self.query(),
    {
        let mut result: Vec<(&'static str, String)> = Vec::new();
        if self.limit != 0 {
            result.push(("limit", number_text(self.limit)));
            result.push(("page", number_text(self.page)));
        }
        if let Some(sort) = self.sort {
            result.push(("sort", sort));
        }
        let desc = if self.desc {
            "true".to_owned()
        } else {
            "false".to_owned()
        };
        result.push(("desc", desc));
        assert(pairs(result@) =~= (if self.limit != 0 {
            seq![
                ("limit"@, decimal(self.limit as nat)),
                ("page"@, decimal(self.page as nat)),
            ]
        } else {
            Seq::empty()
        }) + (match self.sort {
            Some(sort) => seq![("sort"@, sort@)],
            None => Seq::empty(),
        }) + seq![("desc"@, bool_text(self.desc))]);
        Self::add_id_filters(&mut result, "authors", &self.filter.authors);
        Self::add_id_filters(&mut result, "series", &self.filter.series);
        Self::add_text_filters(&mut result, "tags", &self.filter.tags);
        Self::add_text_filters(&mut result, "genres", &self.filter.genres);
        if let Some(progress) = self.filter.progress {
            Self::add_filter(&mut result, "progress", progress.as_str());
            assert(seq![("filter"@, filter_text("progress"@, progress.name()))]
                =~= Seq::<(Seq<char>, Seq<char>)>::empty().push(
                ("filter"@, filter_text("progress"@, progress.name())),
            ));
        }
        result
    }

    fn add_id_filters<T>(
        query: &mut Vec<(&'static str, String)>,
        filter: &str,
        ids: &Vec<Id<T>>,
    )
        ensures
            pairs(final(query)@) == pairs(old(query)@) + filters(filter@, id_texts(ids@)),
    {
        let mut index: usize = 0;
        while index < ids.len()
            invariant
                index <= ids.len(),
                pairs(query@) == pairs(old(query)@) + filters(
                    filter@,
                    id_texts(ids@.take(index as int)),
                ),
            decreases ids.len() - index,
        {
            Self::add_filter(query, filter, ids[index].as_str());
            proof {
                assert(ids@.take(index + 1) =~= ids@.take(index as int).push(ids@[index as int]));
                assert(filters(filter@, id_texts(ids@.take(index + 1))) =~= filters(
                    filter@,
                    id_texts(ids@.take(index as int)),
                ).push(("filter"@, filter_text(filter@, ids@[index as int].id@))));
            }
            index += 1;
        }
        proof {
            assert(ids@.take(index as int) =~= ids@);
        }
    }

    fn add_text_filters(
        query: &mut Vec<(&'static str, String)>,
        filter: &str,
        values: &Vec<String>,
    )
        ensures
            pairs(final(query)@) == pairs(old(query)@) + filters(filter@, texts(values@)),
    {
        let mut index: usize = 0;
        while index < values.len()
            invariant
                index <= values.len(),
                pairs(query@) == pairs(old(query)@) + filters(
                    filter@,
                    texts(values@.take(index as int)),
                ),
            decreases values.len() - index,
        {
            Self::add_filter(query, filter, values[index].as_str());
            proof {
                assert(values@.take(index + 1) =~= values@.take(index as int).push(
                    values@[index as int],
                ));
                assert(filters(filter@, texts(values@.take(index + 1))) =~= filters(
                    filter@,
                    texts(values@.take(index as int)),
                ).push(("filter"@, filter_text(filter@, values@[index as int]@))));
            }
            index += 1;
        }
        proof {
            assert(values@.take(index as int) =~= values@);
        }
    }

    fn add_filter(query: &mut Vec<(&'static str, String)>, filter: &str, value: &str)
        ensures
            pairs(final(query)@) == pairs(old(query)@).push(
                ("filter"@, filter_text(filter@, value@)),
            ),
    {
        let encoded = encode_base64(value);
        let text = filter_parameter(filter, encoded.as_str());
        query.push(("filter", text));
        assert(pairs(query@) =~= pairs(old(query)@).push(
            ("filter"@, filter_text(filter@, value@)),
        ));
    }
}

/// What the player sends when it asks the server to play an item: its
/// name, and the kinds of audio that it can decode.
pub fn playback_params() -> (params: PlayLibraryItemParams)
    ensures
        params.device_info.client_name matches Some(name) && name@ == "hukumkas_client"@,
        params.device_info.device_id is None,
        params.device_info.client_version is None,
        params.device_info.manufacturer is None,
        params.device_info.model is None,
        params.device_info.sdk_version is None,
        !params.force_direct_play,
        !params.force_transcode,
        params.media_player is None,
        texts(params.supported_mime_types@) == seq!["audio/flac"@, "audio/mpeg"@, "audio/ogg"@],
{
    let mut device_info = DeviceInfoParams::default();
    device_info.client_name = Some("hukumkas_client".to_owned());
    let mut supported_mime_types: Vec<String> = Vec::new();
    supported_mime_types.push("audio/flac".to_owned());
    supported_mime_types.push("audio/mpeg".to_owned());
    supported_mime_types.push("audio/ogg".to_owned());
    assert(texts(supported_mime_types@) =~= seq!["audio/flac"@, "audio/mpeg"@, "audio/ogg"@]);
    PlayLibraryItemParams {
        device_info,
        force_direct_play: false,
        force_transcode: false,
        supported_mime_types,
        media_player: None,
    }
}

} // verus!
