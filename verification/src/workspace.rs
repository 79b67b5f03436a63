//! The executors that a workspace knows besides the local one.

use vstd::prelude::*;

use crate::fields::filled_field;
use crate::fields::is_blank;
use crate::fields::optional_string_field;
use crate::json::opt_ref_view;
use crate::json::plain;
use crate::json::views;
use crate::json::Json;
use crate::json::JsonObject;
use crate::json::JsonView;
use crate::jsonrpc::bad_params;
use crate::jsonrpc::JsonRpcError;
use crate::jsonrpc::JsonRpcErrorView;
use crate::order::in_order;
use crate::order::sort_texts;
use crate::order::sorted_names;
use crate::order::text_order;
use crate::output::item_at;
use crate::text::cat;
use crate::text::cat3;
use crate::text::cat4;
use crate::text::has_prefix;
use crate::text::join;
use crate::text::joined;
use crate::text::opt_text;
use crate::text::same;
use crate::text::starts_with;
use crate::text::texts;
use crate::text::trimmed;
use crate::types::copy_opt;
use crate::types::optional_text;
use crate::types::put_opt;
use crate::types::read_optional_text;
use crate::types::text_json;

verus! {

/// An executor and how to reach it. The labels are texts by name.
#[derive(Debug, Clone, PartialEq, Eq)]
pub struct WorkspaceExecutorInfo {
    pub id: String,
    pub url: String,
    pub system: Option<String>,
    pub device: Option<String>,
    pub labels: JsonObject,
}

#[verifier::ext_equal]
pub ghost struct WorkspaceExecutorInfoView {
    pub id: Seq<char>,
    pub url: Seq<char>,
    pub system: Option<Seq<char>>,
    pub device: Option<Seq<char>>,
    pub labels: Map<Seq<char>, JsonView>,
}

impl WorkspaceExecutorInfo {
    pub open spec fn view(&self) -> WorkspaceExecutorInfoView {
        WorkspaceExecutorInfoView {
            id: self.id@,
            url: self.url@,
            system: opt_text(self.system),
            device: opt_text(self.device),
            labels: self.labels@,
        }
    }

    pub fn copy(&self) -> (r: Self)
        ensures
            r@ == self@,
    {
        WorkspaceExecutorInfo {
            id: self.id.clone(),
            url: self.url.clone(),
            system: copy_opt(&self.system),
            device: copy_opt(&self.device),
            labels: self.labels.clone(),
        }
    }
}

pub open spec fn info_views(s: Seq<WorkspaceExecutorInfo>) -> Seq<WorkspaceExecutorInfoView> {
    Seq::new(s.len(), |i: int| s[i].view())
}

pub open spec fn opt_info(i: Option<WorkspaceExecutorInfo>) -> Option<WorkspaceExecutorInfoView> {
    match i {
        Some(i) => Some(i@),
        None => None,
    }
}

#[derive(Debug, Clone, PartialEq, Eq)]
pub struct WorkspaceExecutorConfig {
    pub executors: Vec<WorkspaceExecutorInfo>,
}

impl WorkspaceExecutorConfig {
    pub open spec fn view(&self) -> Seq<WorkspaceExecutorInfoView> {
        info_views(self.executors@)
    }
}

// ---------------------------------------------------------------------------
// Reading an entry
// ---------------------------------------------------------------------------

/// Labels are an object of texts; none where they are left out.
pub open spec fn labels_of(v: Option<JsonView>) -> Option<Map<Seq<char>, JsonView>> {
    match v {
        None => Some(Map::empty()),
        Some(JsonView::Obj(m)) => if forall|k: Seq<char>|
            m.dom().contains(k) ==> #[trigger] m[k] is Str {
            Some(m)
        } else {
            None
        },
        _ => None,
    }
}

pub open spec fn info_from(
    id: Option<JsonView>,
    url: Option<JsonView>,
    system: Option<JsonView>,
    device: Option<JsonView>,
    labels: Option<JsonView>,
) -> Option<WorkspaceExecutorInfoView> {
    match (id, url, optional_text(system), optional_text(device), labels_of(labels)) {
        (
            Some(JsonView::Str(id)),
            Some(JsonView::Str(url)),
            Some(system),
            Some(device),
            Some(labels),
        ) => Some(WorkspaceExecutorInfoView { id, url, system, device, labels }),
        _ => None,
    }
}

/// The executor that an entry describes: the members of an object, or the items of an
/// array in the order id, url, system, device, labels.
pub open spec fn info_of(v: JsonView) -> Option<WorkspaceExecutorInfoView> {
    match v {
        JsonView::Obj(_) => info_from(
            v.field("id"@),
            v.field("url"@),
            v.field("system"@),
            v.field("device"@),
            v.field("labels"@),
        ),
        JsonView::Arr(a) => if a.len() <= 5 {
            info_from(item_at(a, 0), item_at(a, 1), item_at(a, 2), item_at(a, 3), item_at(a, 4))
        } else {
            None
        },
        _ => None,
    }
}

fn read_labels(v: Option<&Json>) -> (r: Option<JsonObject>)
    ensures
        (match r {
            Some(o) => Some(o@),
            None => None,
        }) == labels_of(opt_ref_view(v)),
{
    match v {
        None => Some(JsonObject::new()),
        Some(Json::Object(o)) => {
            let n: usize = o.len();
            let mut i: usize = 0;
            while i < n
                invariant
                    n == o.names().len(),
                    i <= n,
                    v matches Some(Json::Object(w)) && w == o,
                    forall|j: int| 0 <= j < i ==> o@[#[trigger] o.names()[j]] is Str,
                decreases n - i,
            {
                let value = o.value_at(i);
                match value {
                    Json::Str(_) => {},
                    _ => {
                        return None;
                    },
                }
                i = i + 1;
            }
            proof {
                assert forall|k: Seq<char>| o@.dom().contains(k) implies #[trigger] o@[k] is Str by {
                    assert(o.names().contains(k));
                    let j = choose|j: int| 0 <= j < o.names().len() && o.names()[j] == k;
                    assert(o@[o.names()[j]] is Str);
                }
            }
            Some(o.clone())
        },
        _ => None,
    }
}

fn read_info(
    id: Option<&Json>,
    url: Option<&Json>,
    system: Option<&Json>,
    device: Option<&Json>,
    labels: Option<&Json>,
) -> (r: Option<WorkspaceExecutorInfo>)
    ensures
        opt_info(r) == info_from(
            opt_ref_view(id),
            opt_ref_view(url),
            opt_ref_view(system),
            opt_ref_view(device),
            opt_ref_view(labels),
        ),
{
    match (id, url, read_optional_text(system), read_optional_text(device), read_labels(labels)) {
        (Some(Json::Str(id)), Some(Json::Str(url)), Some(system), Some(device), Some(labels)) => {
            Some(
                WorkspaceExecutorInfo { id: id.clone(), url: url.clone(), system, device, labels },
            )
        },
        _ => None,
    }
}

fn item(a: &Vec<Json>, i: usize) -> (r: Option<&Json>)
    ensures
        opt_ref_view(r) == item_at(views(a@), i as int),
{
    if i < a.len() {
        Some(&a[i])
    } else {
        None
    }
}

impl WorkspaceExecutorInfo {
    pub fn from_json(v: &Json) -> (r: Option<Self>)
        ensures
            opt_info(r) == info_of(v@),
    {
        match v {
            Json::Object(o) => read_info(
                o.get("id"),
                o.get("url"),
                o.get("system"),
                o.get("device"),
                o.get("labels"),
            ),
            Json::Array(a) => {
                assert(v@->Arr_0 =~= views(a@));
                if a.len() <= 5 {
                    read_info(item(a, 0), item(a, 1), item(a, 2), item(a, 3), item(a, 4))
                } else {
                    None
                }
            },
            _ => None,
        }
    }
}

// ---------------------------------------------------------------------------
// Reading and writing a configuration
// ---------------------------------------------------------------------------

/// The entries of a configuration: an array, or the array under `executors`.
pub open spec fn entries_of(v: JsonView) -> Seq<JsonView> {
    match v {
        JsonView::Arr(a) => a,
        JsonView::Obj(_) => match v.field("executors"@) {
            Some(JsonView::Arr(a)) => a,
            _ => Seq::empty(),
        },
        _ => Seq::empty(),
    }
}

/// An executor of the list has the id.
pub open spec fn has_id(executors: Seq<WorkspaceExecutorInfoView>, id: Seq<char>) -> bool {
    exists|i: int| 0 <= i < executors.len() && (#[trigger] executors[i]).id == id
}

/// An executor that a workspace can reach: it has an id, which is not that of the local
/// one, and a url.
pub open spec fn is_reachable(e: WorkspaceExecutorInfoView) -> bool {
    trimmed(e.id).len() > 0 && e.id != "local"@ && trimmed(e.url).len() > 0
}

/// The executors that the entries describe: those that can be reached, the first of each
/// id.
pub open spec fn executors_of(entries: Seq<JsonView>) -> Seq<WorkspaceExecutorInfoView>
    decreases entries.len(),
{
    if entries.len() == 0 {
        Seq::empty()
    } else {
        let head = executors_of(entries.drop_last());
        match info_of(entries.last()) {
            Some(e) => if is_reachable(e) && !has_id(head, e.id) {
                head.push(e)
            } else {
                head
            },
            None => head,
        }
    }
}

pub open spec fn config_of(v: JsonView) -> Seq<WorkspaceExecutorInfoView> {
    executors_of(entries_of(v))
}

fn find_id(executors: &Vec<WorkspaceExecutorInfo>, id: &str) -> (r: Option<usize>)
    ensures
        match r {
            Some(i) => i < executors@.len() && info_views(executors@)[i as int].id == id@ && (
            forall|j: int| 0 <= j < i ==> (#[trigger] info_views(executors@)[j]).id != id@),
            None => !has_id(info_views(executors@), id@),
        },
{
    let mut i: usize = 0;
    while i < executors.len()
        invariant
            i <= executors@.len(),
            forall|j: int| 0 <= j < i ==> (#[trigger] info_views(executors@)[j]).id != id@,
        decreases executors.len() - i,
    {
        assert(info_views(executors@)[i as int].id == executors@[i as int].id@);
        if same(executors[i].id.as_str(), id) {
            return Some(i);
        }
        i = i + 1;
    }
    None
}

pub fn workspace_executor_config_from_value(value: &Json) -> (r: WorkspaceExecutorConfig)
    ensures
        r@ == config_of(value@),
{
    let mut executors: Vec<WorkspaceExecutorInfo> = Vec::new();
    assert(info_views(executors@) =~= Seq::empty());
    let listed = match value {
        Json::Array(_) => value.as_array(),
        Json::Object(o) => match o.get("executors") {
            Some(v) => v.as_array(),
            None => None,
        },
        _ => None,
    };
    match listed {
        Some(entries) => {
            let ghost all = views(entries@);
            let mut i: usize = 0;
            assert(all.take(0) =~= Seq::empty());
            while i < entries.len()
                invariant
                    i <= entries@.len(),
                    all == views(entries@),
                    info_views(executors@) == executors_of(all.take(i as int)),
                decreases entries.len() - i,
            {
                assert(all.take(i + 1).drop_last() =~= all.take(i as int));
                let ghost before = info_views(executors@);
                match WorkspaceExecutorInfo::from_json(&entries[i]) {
                    Some(entry) => {
                        if !is_blank(entry.id.as_str()) && !same(entry.id.as_str(), "local")
                            && !is_blank(entry.url.as_str()) && find_id(
                            &executors,
                            entry.id.as_str(),
                        ).is_none() {
                            executors.push(entry);
                            assert(info_views(executors@) =~= before.push(entry@));
                        }
                    },
                    None => {},
                }
                i = i + 1;
            }
            assert(all.take(i as int) =~= all);
        },
        None => {},
    }
    WorkspaceExecutorConfig { executors }
}

/// No two executors have the same id.
pub open spec fn ids_distinct(executors: Seq<WorkspaceExecutorInfoView>) -> bool {
    forall|i: int, j: int|
        0 <= i < j < executors.len() ==> (#[trigger] executors[i]).id != (
        #[trigger] executors[j]).id
}

/// A configuration that was read names only executors that can be reached, each id once.
pub proof fn law_config_is_clean(v: JsonView)
    ensures
        ids_distinct(config_of(v)),
        forall|i: int| 0 <= i < config_of(v).len() ==> is_reachable(#[trigger] config_of(v)[i]),
{
    lemma_executors_clean(entries_of(v));
}

proof fn lemma_executors_clean(entries: Seq<JsonView>)
    ensures
        ids_distinct(executors_of(entries)),
        forall|i: int|
            0 <= i < executors_of(entries).len() ==> is_reachable(
                #[trigger] executors_of(entries)[i],
            ),
    decreases entries.len(),
{
    if entries.len() > 0 {
        lemma_executors_clean(entries.drop_last());
    }
}

pub open spec fn info_value(e: WorkspaceExecutorInfoView) -> JsonView {
    let m = map!["id"@ => JsonView::Str(e.id), "url"@ => JsonView::Str(e.url)];
    let m = put_opt(m, "system"@, text_json(e.system));
    let m = put_opt(m, "device"@, text_json(e.device));
    if e.labels == Map::<Seq<char>, JsonView>::empty() {
        JsonView::Obj(m)
    } else {
        JsonView::Obj(m.insert("labels"@, JsonView::Obj(e.labels)))
    }
}

impl WorkspaceExecutorInfo {
    pub fn to_json(&self) -> (r: Json)
        ensures
            r@ == info_value(self@),
    {
        let mut object = JsonObject::new();
        object.insert("id", Json::Str(self.id.clone()));
        object.insert("url", Json::Str(self.url.clone()));
        match &self.system {
            Some(s) => object.insert("system", Json::Str(s.clone())),
            None => {},
        }
        match &self.device {
            Some(s) => object.insert("device", Json::Str(s.clone())),
            None => {},
        }
        if !self.labels.is_empty() {
            object.insert("labels", Json::Object(self.labels.clone()));
        }
        Json::Object(object)
    }
}

pub open spec fn info_values(executors: Seq<WorkspaceExecutorInfoView>) -> Seq<JsonView> {
    executors.map_values(|e: WorkspaceExecutorInfoView| info_value(e))
}

fn write_infos(first: Vec<Json>, executors: &Vec<WorkspaceExecutorInfo>) -> (r: Json)
    ensures
        r@ == JsonView::Arr(views(first@) + info_values(info_views(executors@))),
{
    let mut values = first;
    let mut i: usize = 0;
    let ghost tail = info_values(info_views(executors@));
    assert(views(values@) =~= views(first@) + tail.take(0));
    while i < executors.len()
        invariant
            i <= executors@.len(),
            tail == info_values(info_views(executors@)),
            views(values@) == views(first@) + tail.take(i as int),
        decreases executors.len() - i,
    {
        let ghost before = views(values@);
        let value = executors[i].to_json();
        assert(tail[i as int] == value@);
        values.push(value);
        assert(views(values@) =~= before.push(value@));
        i = i + 1;
        assert(views(first@) + tail.take(i as int) =~= before.push(value@));
    }
    assert(tail.take(i as int) =~= tail);
    Json::array(values)
}

pub open spec fn config_value(executors: Seq<WorkspaceExecutorInfoView>) -> JsonView {
    JsonView::Obj(map!["executors"@ => JsonView::Arr(info_values(executors))])
}

pub fn workspace_executor_config_to_value(config: &WorkspaceExecutorConfig) -> (r: Json)
    ensures
        r@ == config_value(config@),
{
    let none: Vec<Json> = Vec::new();
    let list = write_infos(none, &config.executors);
    assert(views(none@) + info_values(config@) =~= info_values(config@));
    Json::Object(JsonObject::new().with("executors", list))
}

proof fn lemma_info_reads_back(e: WorkspaceExecutorInfoView)
    requires
        labels_of(Some(JsonView::Obj(e.labels))) is Some,
    ensures
        info_of(info_value(e)) == Some(e),
{
    reveal_strlit("id");
    reveal_strlit("url");
    reveal_strlit("system");
    reveal_strlit("device");
    reveal_strlit("labels");
    assert("id"@.len() == 2 && "url"@.len() == 3 && "system"@.len() == 6 && "device"@.len() == 6
        && "labels"@.len() == 6);
    assert("system"@[0] == 's' && "device"@[0] == 'd' && "labels"@[0] == 'l');
}

/// Reading a configuration gives back what was written, where each executor can be
/// reached, no id occurs twice and the labels are texts.
pub proof fn law_config_reads_back(executors: Seq<WorkspaceExecutorInfoView>)
    requires
        ids_distinct(executors),
        forall|i: int| 0 <= i < executors.len() ==> is_reachable(#[trigger] executors[i]),
        forall|i: int|
            0 <= i < executors.len() ==> labels_of(
                Some(JsonView::Obj((#[trigger] executors[i]).labels)),
            ) is Some,
    ensures
        config_of(config_value(executors)) == executors,
{
    assert(entries_of(config_value(executors)) == info_values(executors));
    lemma_entries_read_back(executors);
}

proof fn lemma_entries_read_back(executors: Seq<WorkspaceExecutorInfoView>)
    requires
        ids_distinct(executors),
        forall|i: int| 0 <= i < executors.len() ==> is_reachable(#[trigger] executors[i]),
        forall|i: int|
            0 <= i < executors.len() ==> labels_of(
                Some(JsonView::Obj((#[trigger] executors[i]).labels)),
            ) is Some,
    ensures
        executors_of(info_values(executors)) == executors,
    decreases executors.len(),
{
    let values = info_values(executors);
    if executors.len() > 0 {
        let front = executors.drop_last();
        assert(info_values(front) =~= values.drop_last());
        assert(ids_distinct(front)) by {
            assert forall|i: int, j: int| 0 <= i < j < front.len() implies (#[trigger] front[i]).id
                != (#[trigger] front[j]).id by {
                assert(executors[i].id != executors[j].id);
            }
        }
        assert forall|i: int| 0 <= i < front.len() implies is_reachable(#[trigger] front[i]) by {
            assert(is_reachable(executors[i]));
        }
        assert forall|i: int| 0 <= i < front.len() implies labels_of(
            Some(JsonView::Obj((#[trigger] front[i]).labels)),
        ) is Some by {
            assert(labels_of(Some(JsonView::Obj(executors[i].labels))) is Some);
        }
        lemma_entries_read_back(front);
        let e = executors.last();
        assert(is_reachable(executors[executors.len() - 1]));
        assert(labels_of(Some(JsonView::Obj(executors[executors.len() - 1].labels))) is Some);
        lemma_info_reads_back(e);
        if has_id(front, e.id) {
            let i = choose|i: int| 0 <= i < front.len() && (#[trigger] front[i]).id == e.id;
            assert(executors[i].id != executors[executors.len() - 1].id);
        }
        assert(executors =~= front.push(e));
    } else {
        assert(executors =~= Seq::empty());
    }
}

// ---------------------------------------------------------------------------
// Adding an executor
// ---------------------------------------------------------------------------

/// The members that are texts.
pub open spec fn text_members(m: Map<Seq<char>, JsonView>) -> Map<Seq<char>, JsonView> {
    Map::new(|k: Seq<char>| m.dom().contains(k) && m[k] is Str, |k: Seq<char>| m[k])
}

pub open spec fn given_labels(v: Option<JsonView>) -> Map<Seq<char>, JsonView> {
    match v {
        Some(JsonView::Obj(m)) => text_members(m),
        _ => Map::empty(),
    }
}

pub fn workspace_executor_labels(value: Option<&Json>) -> (r: JsonObject)
    ensures
        r@ == given_labels(opt_ref_view(value)),
{
    let mut labels = JsonObject::new();
    match value {
        Some(Json::Object(o)) => {
            let n: usize = o.len();
            let mut i: usize = 0;
            while i < n
                invariant
                    n == o.names().len(),
                    i <= n,
                    o.names().no_duplicates(),
                    forall|k: Seq<char>| #[trigger]
                        labels@.dom().contains(k) <==> (exists|j: int|
                            0 <= j < i && #[trigger] o.names()[j] == k && o@[k] is Str),
                    forall|k: Seq<char>| labels@.dom().contains(k) ==> #[trigger] labels@[k] == o@[k],
                decreases n - i,
            {
                let ghost before = labels@;
                let name = o.key_at(i);
                let value = o.value_at(i);
                match value {
                    Json::Str(s) => {
                        labels.insert(name, Json::Str(s.clone()));
                        assert(o.names()[i as int] == name@);
                    },
                    _ => {},
                }
                proof {
                    assert forall|k: Seq<char>| #[trigger] labels@.dom().contains(k) <==> (exists|
                        j: int,
                    |
                        0 <= j < i + 1 && #[trigger] o.names()[j] == k && o@[k] is Str) by {
                        if labels@.dom().contains(k) {
                            if k == name@ && o@[k] is Str {
                                assert(o.names()[i as int] == k);
                            } else {
                                assert(before.dom().contains(k));
                            }
                        }
                        if exists|j: int|
                            0 <= j < i + 1 && #[trigger] o.names()[j] == k && o@[k] is Str {
                            let j = choose|j: int|
                                0 <= j < i + 1 && #[trigger] o.names()[j] == k && o@[k] is Str;
                            if j < i {
                                assert(before.dom().contains(k));
                            }
                        }
                    }
                }
                i = i + 1;
            }
            proof {
                let target = text_members(o@);
                assert forall|k: Seq<char>| #[trigger] labels@.dom().contains(k) <==> target.dom().contains(
                    k,
                ) by {
                    if o@.dom().contains(k) {
                        assert(o.names().contains(k));
                        let j = choose|j: int| 0 <= j < o.names().len() && o.names()[j] == k;
                        assert(o.names()[j] == k);
                    }
                    if labels@.dom().contains(k) {
                        let j = choose|j: int|
                            0 <= j < i && #[trigger] o.names()[j] == k && o@[k] is Str;
                        assert(o.names().contains(k));
                    }
                }
                assert(labels@ =~= target);
            }
        },
        _ => {},
    }
    labels
}

/// A url with a scheme: `ws` where it has none.
pub open spec fn normal_url(url: Seq<char>) -> Seq<char> {
    if has_prefix(url, "ws://"@) || has_prefix(url, "wss://"@) {
        url
    } else {
        "ws://"@ + url
    }
}

pub fn normalize_workspace_executor_url(url: &str) -> (r: String)
    ensures
        r@ == normal_url(url@),
{
    if starts_with(url, "ws://") || starts_with(url, "wss://") {
        url.to_owned()
    } else {
        cat("ws://", url)
    }
}

/// The executor that the arguments describe, or what is wrong with them.
pub open spec fn info_of_arguments(arguments: JsonView) -> Result<
    WorkspaceExecutorInfoView,
    JsonRpcErrorView,
> {
    match filled_field(arguments, "id"@) {
        None => Err(bad_params("executor id is required"@)),
        Some(id) => if id == "local"@ {
            Err(bad_params("local executor is reserved"@))
        } else {
            match filled_field(arguments, "url"@) {
                None => Err(bad_params("executor url is required"@)),
                Some(url) => Ok(
                    WorkspaceExecutorInfoView {
                        id,
                        url: normal_url(url),
                        system: filled_field(arguments, "system"@),
                        device: filled_field(arguments, "device"@),
                        labels: given_labels(arguments.field("labels"@)),
                    },
                ),
            }
        },
    }
}

pub open spec fn info_outcome(r: Result<WorkspaceExecutorInfo, JsonRpcError>) -> Result<
    WorkspaceExecutorInfoView,
    JsonRpcErrorView,
> {
    match r {
        Ok(i) => Ok(i@),
        Err(e) => Err(e@),
    }
}

pub fn workspace_executor_from_arguments(arguments: &Json) -> (r: Result<
    WorkspaceExecutorInfo,
    JsonRpcError,
>)
    ensures
        info_outcome(r) == info_of_arguments(arguments@),
{
    match optional_string_field(arguments, "id") {
        None => Err(JsonRpcError::invalid_params("executor id is required")),
        Some(id) => if same(id.as_str(), "local") {
            Err(JsonRpcError::invalid_params("local executor is reserved"))
        } else {
            match optional_string_field(arguments, "url") {
                None => Err(JsonRpcError::invalid_params("executor url is required")),
                Some(url) => Ok(
                    WorkspaceExecutorInfo {
                        id,
                        url: normalize_workspace_executor_url(url.as_str()),
                        system: optional_string_field(arguments, "system"),
                        device: optional_string_field(arguments, "device"),
                        labels: workspace_executor_labels(arguments.get("labels")),
                    },
                ),
            }
        },
    }
}

/// The position of the first executor with the id.
pub open spec fn id_index(executors: Seq<WorkspaceExecutorInfoView>, id: Seq<char>) -> int
    decreases executors.len(),
{
    if executors.len() == 0 {
        0
    } else if executors[0].id == id {
        0
    } else {
        1 + id_index(executors.drop_first(), id)
    }
}

proof fn lemma_id_index(executors: Seq<WorkspaceExecutorInfoView>, id: Seq<char>, i: int)
    requires
        0 <= i < executors.len(),
        executors[i].id == id,
        forall|j: int| 0 <= j < i ==> (#[trigger] executors[j]).id != id,
    ensures
        id_index(executors, id) == i,
    decreases executors.len(),
{
    if i > 0 {
        assert(executors[0].id != id);
        let tail = executors.drop_first();
        assert forall|j: int| 0 <= j < i - 1 implies (#[trigger] tail[j]).id != id by {
            assert(executors[j + 1].id != id);
        }
        lemma_id_index(tail, id, i - 1);
    }
}

/// The configuration with an executor in the place of the one with its id, or at the end.
pub open spec fn upserted(
    executors: Seq<WorkspaceExecutorInfoView>,
    entry: WorkspaceExecutorInfoView,
) -> Seq<WorkspaceExecutorInfoView> {
    if has_id(executors, entry.id) {
        executors.update(id_index(executors, entry.id), entry)
    } else {
        executors.push(entry)
    }
}

pub fn upsert_workspace_executor(
    config: &mut WorkspaceExecutorConfig,
    entry: WorkspaceExecutorInfo,
)
    ensures
        final(config)@ == upserted(old(config)@, entry@),
{
    let ghost before = config@;
    match find_id(&config.executors, entry.id.as_str()) {
        Some(i) => {
            proof {
                lemma_id_index(before, entry.id@, i as int);
                assert(has_id(before, entry.id@));
            }
            let mut executors: Vec<WorkspaceExecutorInfo> = Vec::new();
            std::mem::swap(&mut executors, &mut config.executors);
            executors.set(i, entry);
            config.executors = executors;
            assert(config@ =~= before.update(i as int, entry@));
        },
        None => {
            config.executors.push(entry);
            assert(config@ =~= before.push(entry@));
        },
    }
}

/// Adding an executor keeps the ids distinct, and the executor can be found under its id
/// with what it was added with.
pub proof fn law_upsert_keeps_ids_distinct(
    executors: Seq<WorkspaceExecutorInfoView>,
    entry: WorkspaceExecutorInfoView,
)
    requires
        ids_distinct(executors),
    ensures
        ids_distinct(upserted(executors, entry)),
        has_id(upserted(executors, entry), entry.id),
        upserted(executors, entry)[id_index(upserted(executors, entry), entry.id)] == entry,
        upserted(upserted(executors, entry), entry) == upserted(executors, entry),
{
    let r = upserted(executors, entry);
    if has_id(executors, entry.id) {
        lemma_first_id(executors, entry.id);
        let i = id_index(executors, entry.id);
        assert(r[i].id == entry.id);
        lemma_id_index(r, entry.id, i);
        assert(r.update(i, entry) =~= r);
    } else {
        let i = executors.len() as int;
        assert(r[i].id == entry.id);
        lemma_id_index(r, entry.id, i);
        assert(r.update(i, entry) =~= r);
    }
}

pub proof fn lemma_first_id(executors: Seq<WorkspaceExecutorInfoView>, id: Seq<char>)
    requires
        has_id(executors, id),
    ensures
        0 <= id_index(executors, id) < executors.len(),
        executors[id_index(executors, id)].id == id,
        forall|j: int| 0 <= j < id_index(executors, id) ==> (#[trigger] executors[j]).id != id,
    decreases executors.len(),
{
    if executors[0].id != id {
        let tail = executors.drop_first();
        let i = choose|i: int| 0 <= i < executors.len() && (#[trigger] executors[i]).id == id;
        assert(tail[i - 1].id == id);
        lemma_first_id(tail, id);
        assert forall|j: int| 0 <= j < id_index(executors, id) implies (
        #[trigger] executors[j]).id != id by {
            if j > 0 {
                assert(tail[j - 1].id != id);
            }
        }
    }
}

/// The executor with the id.
pub open spec fn found(executors: Seq<WorkspaceExecutorInfoView>, id: Seq<char>) -> Option<
    WorkspaceExecutorInfoView,
> {
    if has_id(executors, id) {
        Some(executors[id_index(executors, id)])
    } else {
        None
    }
}

pub fn find_executor(config: &WorkspaceExecutorConfig, id: &str) -> (r: Option<
    WorkspaceExecutorInfo,
>)
    ensures
        opt_info(r) == found(config@, id@),
{
    match find_id(&config.executors, id) {
        Some(i) => {
            proof {
                lemma_id_index(config@, id@, i as int);
                assert(has_id(config@, id@));
            }
            Some(config.executors[i].copy())
        },
        None => None,
    }
}

// ---------------------------------------------------------------------------
// Showing the executors
// ---------------------------------------------------------------------------

/// The labels as `name=value`, in dictionary order.
pub open spec fn label_texts(m: Map<Seq<char>, JsonView>) -> Seq<Seq<char>> {
    let names = sorted_names(m.dom());
    in_order(
        Seq::new(names.len(), |i: int| names[i] + "="@ + plain(m[names[i]])),
        text_order(),
    )
}

pub open spec fn labels_text(v: Option<JsonView>) -> Option<Seq<char>> {
    match v {
        Some(JsonView::Obj(m)) => if m == Map::<Seq<char>, JsonView>::empty() {
            None
        } else {
            Some(joined(label_texts(m), ","@))
        },
        _ => None,
    }
}

pub fn labels_output_text(labels: Option<&Json>) -> (r: Option<String>)
    ensures
        opt_text(r) == labels_text(opt_ref_view(labels)),
{
    match labels {
        Some(Json::Object(o)) => {
            if o.is_empty() {
                return None;
            }
            let n: usize = o.len();
            let mut entries: Vec<String> = Vec::new();
            let mut i: usize = 0;
            let ghost names = o.names();
            let ghost target = Seq::new(names.len(), |i: int| names[i] + "="@ + plain(o@[names[i]]));
            while i < n
                invariant
                    n == o.names().len(),
                    i <= n,
                    names == o.names(),
                    target.len() == n,
                    forall|j: int|
                        0 <= j < n ==> #[trigger] target[j] == names[j] + "="@ + plain(o@[names[j]]),
                    texts(entries@) == target.take(i as int),
                decreases n - i,
            {
                let value = o.value_at(i).plain_text();
                let entry = cat3(o.key_at(i), "=", value.as_str());
                let ghost before = texts(entries@);
                assert(target[i as int] == entry@);
                entries.push(entry);
                assert(texts(entries@) =~= before.push(entry@));
                i = i + 1;
                assert(target.take(i as int) =~= before.push(entry@));
            }
            assert(target.take(i as int) =~= target);
            let sorted = sort_texts(&entries);
            Some(join(&sorted, ","))
        },
        _ => None,
    }
}

pub open spec fn shown_text(v: Option<JsonView>) -> Option<Seq<char>> {
    match v {
        Some(JsonView::Str(s)) => if s.len() > 0 {
            Some(s)
        } else {
            None
        },
        _ => None,
    }
}

fn read_shown(v: Option<&Json>) -> (r: Option<String>)
    ensures
        opt_text(r) == shown_text(opt_ref_view(v)),
{
    match v {
        Some(Json::Str(s)) => if s.as_str().unicode_len() > 0 {
            Some(s.clone())
        } else {
            None
        },
        _ => None,
    }
}

pub open spec fn with_detail(
    line: Seq<char>,
    name: Seq<char>,
    value: Option<Seq<char>>,
) -> Seq<char> {
    match value {
        Some(v) => line + (" "@ + name + "="@ + v),
        None => line,
    }
}

fn add_detail(line: String, name: &str, value: Option<String>) -> (r: String)
    ensures
        r@ == with_detail(line@, name@, opt_text(value)),
{
    match value {
        Some(v) => {
            let detail = cat4(" ", name, "=", v.as_str());
            let mut line = line;
            line.append(detail.as_str());
            line
        },
        None => line,
    }
}

/// The line for an executor: its id, whether it is the default, and what is known of it.
pub open spec fn executor_line(e: JsonView, default: Seq<char>) -> Seq<char> {
    let id = match shown_text(e.field("id"@)) {
        Some(id) => id,
        None => "unknown"@,
    };
    let line = "- "@ + id;
    let line = if id == default {
        line + " (default)"@
    } else {
        line
    };
    let line = with_detail(line, "system"@, shown_text(e.field("system"@)));
    let line = with_detail(line, "device"@, shown_text(e.field("device"@)));
    let line = with_detail(line, "url"@, shown_text(e.field("url"@)));
    with_detail(line, "labels"@, labels_text(e.field("labels"@)))
}

fn format_executor(e: &Json, default: &str) -> (r: String)
    ensures
        r@ == executor_line(e@, default@),
{
    let id = match read_shown(e.get("id")) {
        Some(id) => id,
        None => "unknown".to_owned(),
    };
    let mut line = cat("- ", id.as_str());
    if same(id.as_str(), default) {
        line.append(" (default)");
    }
    let line = add_detail(line, "system", read_shown(e.get("system")));
    let line = add_detail(line, "device", read_shown(e.get("device")));
    let line = add_detail(line, "url", read_shown(e.get("url")));
    add_detail(line, "labels", labels_output_text(e.get("labels")))
}

pub open spec fn executor_lines(executors: Seq<JsonView>, default: Seq<char>) -> Seq<Seq<char>> {
    executors.map_values(|e: JsonView| executor_line(e, default))
}

/// The list of executors in the metadata of a result, as text.
pub open spec fn executor_list_text(result: JsonView) -> Option<Seq<char>> {
    match result.field2("metadata"@, "executors"@) {
        Some(JsonView::Arr(executors)) => {
            let default = match result.text_field2("metadata"@, "default"@) {
                Some(d) => d,
                None => ""@,
            };
            let head = if default.len() > 0 {
                seq!["default executor: "@ + default, "executors:"@]
            } else {
                seq!["executors:"@]
            };
            let head = if executors.len() == 0 {
                head.push("- none"@)
            } else {
                head
            };
            Some(joined(head + executor_lines(executors, default), "\n"@))
        },
        _ => None,
    }
}

pub fn executor_list_output_text(result: &Json) -> (r: Option<String>)
    ensures
        opt_text(r) == executor_list_text(result@),
{
    let executors = match result.get2("metadata", "executors") {
        Some(v) => match v.as_array() {
            Some(a) => a,
            None => {
                return None;
            },
        },
        None => {
            return None;
        },
    };
    let default = result.text_of2("metadata", "default").unwrap_or("");
    let mut lines: Vec<String> = Vec::new();
    if default.unicode_len() > 0 {
        lines.push(cat("default executor: ", default));
    }
    lines.push("executors:".to_owned());
    proof {
        if default@.len() > 0 {
            assert(texts(lines@) =~= seq!["default executor: "@ + default@, "executors:"@]);
        } else {
            assert(texts(lines@) =~= seq!["executors:"@]);
        }
    }
    let ghost first = texts(lines@);
    if executors.len() == 0 {
        lines.push("- none".to_owned());
        assert(texts(lines@) =~= first.push("- none"@));
    }
    let ghost head = texts(lines@);
    let ghost tail = executor_lines(views(executors@), default@);
    let mut i: usize = 0;
    assert(head =~= head + tail.take(0));
    while i < executors.len()
        invariant
            i <= executors@.len(),
            tail == executor_lines(views(executors@), default@),
            texts(lines@) == head + tail.take(i as int),
        decreases executors.len() - i,
    {
        let line = format_executor(&executors[i], default);
        let ghost before = texts(lines@);
        assert(tail[i as int] == line@);
        lines.push(line);
        assert(texts(lines@) =~= before.push(line@));
        i = i + 1;
        assert(head + tail.take(i as int) =~= before.push(line@));
    }
    assert(tail.take(i as int) =~= tail);
    Some(join(&lines, "\n"))
}

// ---------------------------------------------------------------------------
// Results
// ---------------------------------------------------------------------------

pub open spec fn executor_metadata(
    executors: Seq<WorkspaceExecutorInfoView>,
    local: JsonView,
) -> JsonView {
    JsonView::Obj(
        map![
            "default"@ => JsonView::Str("local"@),
            "executors"@ => JsonView::Arr(seq![local] + info_values(executors)),
        ],
    )
}

pub fn workspace_executor_metadata(config: &WorkspaceExecutorConfig, local: Json) -> (r: Json)
    ensures
        r@ == executor_metadata(config@, local@),
{
    let mut first: Vec<Json> = Vec::new();
    first.push(local);
    assert(views(first@) =~= seq![local@]);
    let list = write_infos(first, &config.executors);
    Json::Object(JsonObject::new().with("default", Json::str("local")).with("executors", list))
}

/// The result that lists the local executor and those of the workspace.
pub open spec fn executor_result(
    executors: Seq<WorkspaceExecutorInfoView>,
    local: JsonView,
) -> JsonView {
    let metadata = executor_metadata(executors, local);
    let text = match executor_list_text(JsonView::Obj(map!["metadata"@ => metadata])) {
        Some(t) => t,
        None => "executors:\n- none"@,
    };
    JsonView::Obj(
        map![
            "metadata"@ => metadata,
            "output"@ => JsonView::Obj(
                map![
                    "message"@ => JsonView::Str(""@),
                    "text"@ => JsonView::Str(text),
                    "info"@ => JsonView::Str(""@),
                ],
            ),
        ],
    )
}

pub fn workspace_executor_result(config: &WorkspaceExecutorConfig, local: Json) -> (r: Json)
    ensures
        r@ == executor_result(config@, local@),
{
    let metadata = workspace_executor_metadata(config, local);
    let wrapped = Json::Object(JsonObject::new().with("metadata", metadata.clone()));
    let text = match executor_list_output_text(&wrapped) {
        Some(t) => t,
        None => "executors:\n- none".to_owned(),
    };
    let output = JsonObject::new().with("message", Json::str("")).with("text", Json::Str(text)).with(
        "info",
        Json::str(""),
    );
    Json::Object(
        JsonObject::new().with("metadata", metadata).with("output", Json::Object(output)),
    )
}

/// What a list of executors says of the local one; just its id where it is not there.
pub open spec fn local_of(result: Option<JsonView>) -> JsonView {
    let none = JsonView::Obj(map!["id"@ => JsonView::Str("local"@)]);
    match result {
        Some(result) => match result.field2("metadata"@, "executors"@) {
            Some(JsonView::Arr(a)) => match first_local(a) {
                Some(e) => e,
                None => none,
            },
            _ => none,
        },
        None => none,
    }
}

pub open spec fn first_local(a: Seq<JsonView>) -> Option<JsonView>
    decreases a.len(),
{
    if a.len() == 0 {
        None
    } else if a[0].text_field("id"@) == Some("local"@) {
        Some(a[0])
    } else {
        first_local(a.drop_first())
    }
}

#[verifier::loop_isolation(false)]
pub fn local_executor(result: &Option<Json>) -> (r: Json)
    ensures
        r@ == local_of(crate::json::opt_view(*result)),
{
    match result {
        Some(result) => match result.get2("metadata", "executors") {
            Some(v) => match v.as_array() {
                Some(a) => {
                    let mut i: usize = 0;
                    assert(views(a@).skip(0) =~= views(a@));
                    while i < a.len()
                        invariant
                            i <= a@.len(),
                            first_local(views(a@).skip(i as int)) == first_local(views(a@)),
                            result@.field2("metadata"@, "executors"@) == Some(
                                JsonView::Arr(views(a@)),
                            ),
                        decreases a.len() - i,
                    {
                        assert(views(a@).skip(i as int).drop_first() =~= views(a@).skip(i + 1));
                        assert(views(a@).skip(i as int)[0] == a@[i as int]@);
                        match a[i].text_of("id") {
                            Some(id) => if same(id, "local") {
                                return a[i].clone();
                            },
                            None => {},
                        }
                        i = i + 1;
                    }
                },
                None => {},
            },
            None => {},
        },
        None => {},
    }
    Json::Object(JsonObject::new().with("id", Json::str("local")))
}

} // verus!
