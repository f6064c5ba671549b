//! App Store search: the arguments of `catalog_search`, the purchase
//! statuses the host passes in, the checks on the search response and the
//! result document
//! `[{"bundle_id":..,"id":..,"name":..,"developer":..,"artwork_url":..,"price":..,"version":..,"purchased":..}, ..]`.

use vstd::prelude::*;

use crate::appcatalog::search_parser::SearchResult;
use crate::ffi::document::{
    distinct_keys, has_member, is_list_of, lemma_object_member, object, optional_text_json, views,
    Json, JsonValue, ObjectBuilder,
};
use crate::ffi::{
    arg, blank, check_arguments, checked, first_failure, is_blank, lemma_first_failure_none,
    opt_view, optional_readable, optional_text_of, read_cstr, read_opt_cstr, readable,
    set_last_error, text_of, without_nul, ArgCheck, LastError, FFI_ERR_FAILED,
};

verus! {

// ---------------------------------------------------------------------------
// Purchase statuses passed in by the host
// ---------------------------------------------------------------------------

/// One purchase record passed in by the host: `{"app_id":..,"status":..}`.
pub struct PurchasedAppJson {
    pub app_id: String,
    pub status: String,
}

/// The status of each app id among the records; a later record for an app
/// id overrides an earlier one.
pub open spec fn purchased_map(entries: Seq<PurchasedAppJson>) -> Map<Seq<char>, Seq<char>>
    decreases entries.len(),
{
    if entries.len() == 0 {
        Map::empty()
    } else {
        purchased_map(entries.drop_last()).insert(
            entries.last().app_id@,
            entries.last().status@,
        )
    }
}

/// The purchase statuses that search results are marked with: the records
/// in the order the host passed them, looked up from the back, so that the
/// last record for an app id is the one found.
pub struct PurchasedLookup {
    entries: Vec<PurchasedAppJson>,
}

impl View for PurchasedLookup {
    type V = Map<Seq<char>, Seq<char>>;

    closed spec fn view(&self) -> Map<Seq<char>, Seq<char>> {
        purchased_map(self.entries@)
    }
}

/// The statuses known from what reading the host's purchase list gave:
/// nothing when no list was passed or it did not read as purchase records,
/// otherwise the records.
pub open spec fn parsed_lookup(parsed: Option<Seq<PurchasedAppJson>>) -> Map<Seq<char>, Seq<char>> {
    match parsed {
        Some(entries) => purchased_map(entries),
        None => Map::empty(),
    }
}

impl PurchasedLookup {
    /// The statuses of the records the host passed in; none when it passed
    /// none or they did not parse.
    pub fn from_entries(parsed: Option<Vec<PurchasedAppJson>>) -> (res: PurchasedLookup)
        ensures
            parsed is None ==> res@ == Map::<Seq<char>, Seq<char>>::empty(),
            parsed matches Some(entries) ==> res@ == purchased_map(entries@),
            res@ == parsed_lookup(
                match parsed {
                    Some(entries) => Some(entries@),
                    None => None,
                },
            ),
    {
        match parsed {
            Some(entries) => PurchasedLookup { entries },
            None => PurchasedLookup { entries: Vec::new() },
        }
    }

    /// The status recorded for `app_id`, if any.
    pub fn status_of(&self, app_id: &String) -> (res: Option<String>)
        ensures
            res is Some <==> self@.contains_key(app_id@),
            res matches Some(status) ==> status@ == self@[app_id@],
    {
        let mut i = self.entries.len();
        assert(self.entries@.take(i as int) =~= self.entries@);
        while i > 0
            invariant
                i <= self.entries@.len(),
                purchased_map(self.entries@).contains_key(app_id@) == purchased_map(
                    self.entries@.take(i as int),
                ).contains_key(app_id@),
                purchased_map(self.entries@).contains_key(app_id@) ==> purchased_map(
                    self.entries@,
                )[app_id@] == purchased_map(self.entries@.take(i as int))[app_id@],
            decreases i,
        {
            let ghost prefix = self.entries@.take(i as int);
            assert(prefix.drop_last() =~= self.entries@.take(i - 1));
            if self.entries[i - 1].app_id == *app_id {
                return Some(self.entries[i - 1].status.clone());
            }
            i = i - 1;
        }
        None
    }
}

// ---------------------------------------------------------------------------
// Arguments
// ---------------------------------------------------------------------------

/// What a search is made with.
pub struct CatalogQuery {
    pub name: String,
    /// The store country; empty when the host passed none.
    pub country: String,
    /// The host's purchase records, as JSON text, if passed.
    pub purchased_apps_json: Option<String>,
}

/// The checks of `catalog_search`, in call order.
pub open spec fn catalog_search_checks(
    name: Option<&[u8]>,
    country: Option<&[u8]>,
    purchased_apps_json: Option<&[u8]>,
    out_json_present: bool,
) -> Seq<ArgCheck> {
    seq![
        arg("name", readable(name)),
        arg("country", optional_readable(country)),
        arg("purchased_apps_json", optional_readable(purchased_apps_json)),
        arg("out_json", out_json_present),
    ]
}

/// Reads the arguments of `catalog_search`; a missing country is empty.
pub fn catalog_search_arguments(
    slot: &mut LastError,
    name: Option<&[u8]>,
    country: Option<&[u8]>,
    purchased_apps_json: Option<&[u8]>,
    out_json_present: bool,
) -> (res: Result<CatalogQuery, i32>)
    ensures
        checked(
            res,
            old(slot)@,
            final(slot)@,
            first_failure(
                catalog_search_checks(name, country, purchased_apps_json, out_json_present),
            ),
        ),
        res matches Ok(query) ==> {
            &&& query.name@ == text_of(name)
            &&& query.country@ == match optional_text_of(country) {
                Some(text) => text,
                None => Seq::<char>::empty(),
            }
            &&& opt_view(query.purchased_apps_json) == optional_text_of(purchased_apps_json)
        },
{
    let name_text = read_cstr(name);
    let country_text = read_opt_cstr(country);
    let purchased_text = read_opt_cstr(purchased_apps_json);
    let checks = vec![
        ArgCheck { name: "name", passed: name_text.is_ok() },
        ArgCheck { name: "country", passed: country_text.is_ok() },
        ArgCheck { name: "purchased_apps_json", passed: purchased_text.is_ok() },
        ArgCheck { name: "out_json", passed: out_json_present },
    ];
    assert(checks@ =~= catalog_search_checks(
        name,
        country,
        purchased_apps_json,
        out_json_present,
    ));
    match check_arguments(slot, &checks) {
        Err(code) => Err(code),
        Ok(()) => {
            proof {
                lemma_first_failure_none(checks@);
                assert(checks@[0].passed && checks@[1].passed && checks@[2].passed);
            }
            let country = match country_text.unwrap() {
                Some(text) => text,
                None => String::new(),
            };
            Ok(
                CatalogQuery {
                    name: name_text.unwrap(),
                    country,
                    purchased_apps_json: purchased_text.unwrap(),
                },
            )
        },
    }
}

// ---------------------------------------------------------------------------
// The response and the result document
// ---------------------------------------------------------------------------

/// Checks the search response: a timed-out search fails with
/// `catalog search timed out`, a blank payload with `empty catalog response`.
pub fn check_catalog_response(slot: &mut LastError, timed_out: bool, payload: &str) -> (res:
    Result<(), i32>)
    ensures
        timed_out ==> res == Err::<(), i32>(FFI_ERR_FAILED) && final(slot)@ == Some(
            without_nul("catalog search timed out"@),
        ),
        !timed_out && blank(payload@) ==> res == Err::<(), i32>(FFI_ERR_FAILED) && final(slot)@
            == Some(without_nul("empty catalog response"@)),
        !timed_out && !blank(payload@) ==> res is Ok && final(slot)@ == old(slot)@,
{
    if timed_out {
        set_last_error(slot, "catalog search timed out");
        return Err(FFI_ERR_FAILED);
    }
    if is_blank(payload) {
        set_last_error(slot, "empty catalog response");
        return Err(FFI_ERR_FAILED);
    }
    Ok(())
}

/// A search result as JSON.
pub open spec fn search_result_doc(r: SearchResult) -> Json {
    object(
        seq![
            ("bundle_id"@, Json::Text(r.bundle_id@)),
            ("id"@, optional_text_json(opt_view(r.id))),
            ("name"@, optional_text_json(opt_view(r.name))),
            ("developer"@, optional_text_json(opt_view(r.developer))),
            ("artwork_url"@, optional_text_json(opt_view(r.artwork_url))),
            ("price"@, Json::Text(r.price@)),
            ("version"@, optional_text_json(opt_view(r.version))),
            ("purchased"@, Json::Text(r.purchased@)),
        ],
    )
}

/// A search result as a JSON document.
pub fn search_result_json(r: &SearchResult) -> (res: JsonValue)
    ensures
        res@ == search_result_doc(*r),
{
    let mut doc = ObjectBuilder::new();
    doc.field("bundle_id", JsonValue::text(r.bundle_id.as_str()));
    doc.field("id", JsonValue::optional_text(&r.id));
    doc.field("name", JsonValue::optional_text(&r.name));
    doc.field("developer", JsonValue::optional_text(&r.developer));
    doc.field("artwork_url", JsonValue::optional_text(&r.artwork_url));
    doc.field("price", JsonValue::text(r.price.as_str()));
    doc.field("version", JsonValue::optional_text(&r.version));
    doc.field("purchased", JsonValue::text(r.purchased.as_str()));
    let ghost members = doc@;
    assert(members =~= seq![
        ("bundle_id"@, Json::Text(r.bundle_id@)),
        ("id"@, optional_text_json(opt_view(r.id))),
        ("name"@, optional_text_json(opt_view(r.name))),
        ("developer"@, optional_text_json(opt_view(r.developer))),
        ("artwork_url"@, optional_text_json(opt_view(r.artwork_url))),
        ("price"@, Json::Text(r.price@)),
        ("version"@, optional_text_json(opt_view(r.version))),
        ("purchased"@, Json::Text(r.purchased@)),
    ]);
    doc.build()
}

/// The search results as a JSON list.
pub open spec fn search_results_doc(results: Seq<SearchResult>) -> Json {
    Json::List(results.map_values(|r: SearchResult| search_result_doc(r)))
}

/// The result of `catalog_search` once the response has been parsed: the
/// list of results, or a failure `invalid catalog response` when it did not
/// parse.
pub fn catalog_items_result(slot: &mut LastError, parsed: Option<Vec<SearchResult>>) -> (res:
    Result<JsonValue, i32>)
    ensures
        parsed is None ==> res is Err && res->Err_0 == FFI_ERR_FAILED && final(slot)@ == Some(
            without_nul("invalid catalog response"@),
        ),
        parsed matches Some(results) ==> (res matches Ok(doc) && doc@ == search_results_doc(
            results@,
        )) && final(slot)@ == old(slot)@,
{
    match parsed {
        None => {
            set_last_error(slot, "invalid catalog response");
            Err(FFI_ERR_FAILED)
        },
        Some(results) => {
            let mut docs: Vec<JsonValue> = Vec::new();
            for i in 0..results.len()
                invariant
                    docs@.len() == i,
                    forall|j: int|
                        0 <= j < i ==> #[trigger] docs@[j]@ == search_result_doc(results@[j]),
            {
                docs.push(search_result_json(&results[i]));
            }
            assert(views(docs@) =~= results@.map_values(|r: SearchResult| search_result_doc(r)));
            Ok(JsonValue::list(docs))
        },
    }
}

// ---------------------------------------------------------------------------
// Laws
// ---------------------------------------------------------------------------

/// A purchase list that was passed but did not read as purchase records is
/// ignored, not reported: reading it gives nothing, as when no list is
/// passed, and the lookup made of nothing knows no app, so every search
/// result is marked as it would be without a list.
pub proof fn law_unreadable_purchase_list_ignored(
    read: Option<Seq<PurchasedAppJson>>,
    app_id: Seq<char>,
)
    ensures
        read is None ==> parsed_lookup(read) == parsed_lookup(None),
        !parsed_lookup(None).contains_key(app_id),
{
}

/// The search result document lists every parsed result once, in order:
/// entry `i` is the document of result `i`.
pub proof fn law_search_results_listed_in_order(results: Seq<SearchResult>)
    ensures
        is_list_of(
            search_results_doc(results),
            Seq::new(results.len(), |i: int| search_result_doc(results[i])),
        ),
{
}

/// A search result's document carries each field of the result under its
/// own name.
pub proof fn law_search_result_members(r: SearchResult)
    ensures
        has_member(search_result_doc(r), "bundle_id"@, Json::Text(r.bundle_id@)),
        has_member(search_result_doc(r), "id"@, optional_text_json(opt_view(r.id))),
        has_member(search_result_doc(r), "name"@, optional_text_json(opt_view(r.name))),
        has_member(search_result_doc(r), "developer"@, optional_text_json(opt_view(r.developer))),
        has_member(
            search_result_doc(r),
            "artwork_url"@,
            optional_text_json(opt_view(r.artwork_url)),
        ),
        has_member(search_result_doc(r), "price"@, Json::Text(r.price@)),
        has_member(search_result_doc(r), "version"@, optional_text_json(opt_view(r.version))),
        has_member(search_result_doc(r), "purchased"@, Json::Text(r.purchased@)),
{
    reveal_strlit("bundle_id");
    reveal_strlit("id");
    reveal_strlit("name");
    reveal_strlit("developer");
    reveal_strlit("artwork_url");
    reveal_strlit("price");
    reveal_strlit("version");
    reveal_strlit("purchased");
    let m = seq![
        ("bundle_id"@, Json::Text(r.bundle_id@)),
        ("id"@, optional_text_json(opt_view(r.id))),
        ("name"@, optional_text_json(opt_view(r.name))),
        ("developer"@, optional_text_json(opt_view(r.developer))),
        ("artwork_url"@, optional_text_json(opt_view(r.artwork_url))),
        ("price"@, Json::Text(r.price@)),
        ("version"@, optional_text_json(opt_view(r.version))),
        ("purchased"@, Json::Text(r.purchased@)),
    ];
    assert(m[0].0.len() == 9 && m[1].0.len() == 2 && m[2].0.len() == 4 && m[3].0.len() == 9
        && m[4].0.len() == 11 && m[5].0.len() == 5 && m[6].0.len() == 7 && m[7].0.len() == 9);
    assert(m[0].0[0] == 'b' && m[3].0[0] == 'd' && m[7].0[0] == 'p');
    assert(distinct_keys(m));
    lemma_object_member(m, 0);
    lemma_object_member(m, 1);
    lemma_object_member(m, 2);
    lemma_object_member(m, 3);
    lemma_object_member(m, 4);
    lemma_object_member(m, 5);
    lemma_object_member(m, 6);
    lemma_object_member(m, 7);
}

/// Exactly the app ids that occur among the records have a status.
pub proof fn law_purchased_ids(entries: Seq<PurchasedAppJson>, app_id: Seq<char>)
    ensures
        purchased_map(entries).contains_key(app_id) <==> exists|i: int|
            0 <= i < entries.len() && (#[trigger] entries[i]).app_id@ == app_id,
    decreases entries.len(),
{
    if entries.len() > 0 {
        law_purchased_ids(entries.drop_last(), app_id);
        if purchased_map(entries.drop_last()).contains_key(app_id) {
            let i = choose|i: int|
                0 <= i < entries.drop_last().len() && (#[trigger] entries.drop_last()[i]).app_id@
                    == app_id;
            assert(entries[i] == entries.drop_last()[i]);
        }
        if exists|i: int| 0 <= i < entries.len() && (#[trigger] entries[i]).app_id@ == app_id {
            let i = choose|i: int| 0 <= i < entries.len() && (#[trigger] entries[i]).app_id@ == app_id;
            if i < entries.len() - 1 {
                assert(entries.drop_last()[i] == entries[i]);
            }
        }
    }
}

/// A later record for an app id overrides what earlier ones said: appending
/// a record sets that app's status and leaves every other app's as it was.
pub proof fn law_later_record_wins(entries: Seq<PurchasedAppJson>, record: PurchasedAppJson, other: Seq<char>)
    ensures
        purchased_map(entries.push(record))[record.app_id@] == record.status@,
        other != record.app_id@ ==> purchased_map(entries.push(record)).contains_key(other)
            == purchased_map(entries).contains_key(other),
        other != record.app_id@ && purchased_map(entries).contains_key(other) ==> purchased_map(
            entries.push(record),
        )[other] == purchased_map(entries)[other],
{
    assert(entries.push(record).drop_last() =~= entries);
}

} // verus!
