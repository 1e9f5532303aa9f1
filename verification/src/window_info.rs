//! The window-info query: what is known of the primary window, with the
//! kernel's report on the companion window merged in.
//!
//! A JSON object is handled as the list of its fields, in the order in which
//! they are put into it; a field put later replaces an earlier one with the
//! same key. The values are whatever the caller's JSON library holds: nothing
//! here looks into them.

use crate::text::same_text;
use vstd::prelude::*;

verus! {

/// One field of an object.
#[derive(Debug)]
pub struct Field<V> {
    pub key: String,
    pub value: V,
}

/// The key under which the kernel reports the bounds of the companion window.
pub const BOUNDS_KEY: &'static str = "bounds";

/// The key under which the window info holds those bounds.
pub const LEFT_BOUNDS_KEY: &'static str = "leftBounds";

/// What is known of the windows without the kernel, one value for each field
/// of the window info. The caller fills in the values: `false` for the five
/// flags, `null` for the identifier, the empty text for the URL, a rectangle
/// of zeros for the bounds of the companion window, and what the window
/// system tells for the bounds of the main window and for the display.
#[derive(Debug)]
pub struct WindowInfoDefaults<V> {
    pub attached: V,
    pub id: V,
    pub visible: V,
    pub focused: V,
    pub devtools: V,
    pub loading: V,
    pub url: V,
    pub left_bounds: V,
    pub main_bounds: V,
    pub display: V,
}

/// The fields of a list, each as its key and its value.
pub open spec fn entries<V>(fields: Seq<Field<V>>) -> Seq<(Seq<char>, V)> {
    Seq::new(fields.len(), |i: int| (fields[i].key@, fields[i].value))
}

/// The object that a list of fields stands for: each key with the value of
/// the last field that has it.
pub open spec fn object_of<V>(fields: Seq<(Seq<char>, V)>) -> Map<Seq<char>, V>
    decreases fields.len(),
{
    if fields.len() == 0 {
        Map::empty()
    } else {
        object_of(fields.drop_last()).insert(fields.last().0, fields.last().1)
    }
}

/// The fields of the window info before the merge, under their keys.
pub open spec fn default_entries<V>(defaults: WindowInfoDefaults<V>) -> Seq<(Seq<char>, V)> {
    seq![
        ("attached"@, defaults.attached),
        ("id"@, defaults.id),
        ("visible"@, defaults.visible),
        ("focused"@, defaults.focused),
        ("devtools"@, defaults.devtools),
        ("loading"@, defaults.loading),
        ("url"@, defaults.url),
        (LEFT_BOUNDS_KEY@, defaults.left_bounds),
        ("mainBounds"@, defaults.main_bounds),
        ("display"@, defaults.display),
    ]
}

/// The key under which a field of the kernel's report goes into the window
/// info: `bounds` becomes `leftBounds`, every other key stays.
pub open spec fn merged_key(key: Seq<char>) -> Seq<char> {
    if key == BOUNDS_KEY@ {
        LEFT_BOUNDS_KEY@
    } else {
        key
    }
}

/// The window info `info` with the kernel's report `status` merged in: each
/// field of the report, in its order, is put into the info under its merged
/// key.
pub open spec fn merged<V>(info: Map<Seq<char>, V>, status: Seq<(Seq<char>, V)>) -> Map<Seq<char>, V>
    decreases status.len(),
{
    if status.len() == 0 {
        info
    } else {
        merged(info, status.drop_last()).insert(merged_key(status.last().0), status.last().1)
    }
}

/// The window info for a report: the defaults with the report merged in, or
/// the defaults alone where there is no report.
pub open spec fn window_info<V>(
    defaults: WindowInfoDefaults<V>,
    status: Option<Seq<(Seq<char>, V)>>,
) -> Map<Seq<char>, V> {
    match status {
        Some(report) => merged(object_of(default_entries(defaults)), report),
        None => object_of(default_entries(defaults)),
    }
}

/// A key under which no field of the report goes keeps what the window info
/// held for it before the merge.
pub proof fn law_untouched_key_keeps_its_value<V>(
    info: Map<Seq<char>, V>,
    status: Seq<(Seq<char>, V)>,
    key: Seq<char>,
)
    requires
        forall|i: int| 0 <= i < status.len() ==> merged_key(#[trigger] status[i].0) != key,
    ensures
        merged(info, status).dom().contains(key) == info.dom().contains(key),
        info.dom().contains(key) ==> merged(info, status)[key] == info[key],
    decreases status.len(),
{
    if status.len() > 0 {
        let rest = status.drop_last();
        assert forall|i: int| 0 <= i < rest.len() implies merged_key(#[trigger] rest[i].0)
            != key by {
            assert(rest[i] == status[i]);
        }
        law_untouched_key_keeps_its_value(info, rest, key);
        assert(merged_key(status[status.len() - 1].0) != key);
    }
}

/// The value of a field of the report stands in the window info under the
/// field's merged key, unless a later field of the report goes under the same
/// key: every key but `bounds` is copied as it is, and `bounds` arrives as
/// `leftBounds`.
pub proof fn law_last_report_field_wins<V>(
    info: Map<Seq<char>, V>,
    status: Seq<(Seq<char>, V)>,
    i: int,
)
    requires
        0 <= i < status.len(),
        forall|j: int|
            i < j < status.len() ==> merged_key(#[trigger] status[j].0) != merged_key(status[i].0),
    ensures
        merged(info, status).dom().contains(merged_key(status[i].0)),
        merged(info, status)[merged_key(status[i].0)] == status[i].1,
    decreases status.len(),
{
    if i < status.len() - 1 {
        let rest = status.drop_last();
        assert(rest[i] == status[i]);
        assert forall|j: int| i < j < rest.len() implies merged_key(#[trigger] rest[j].0)
            != merged_key(rest[i].0) by {
            assert(rest[j] == status[j]);
        }
        law_last_report_field_wins(info, rest, i);
        assert(merged_key(status[status.len() - 1].0) != merged_key(status[i].0));
    }
}

/// The key under which a field of the kernel's report goes into the window
/// info.
pub fn merge_key(key: String) -> (r: String)
    ensures
        r@ == merged_key(key@),
{
    if same_text(key.as_str(), BOUNDS_KEY) {
        String::from_str(LEFT_BOUNDS_KEY)
    } else {
        key
    }
}

fn field<V>(key: &str, value: V) -> (f: Field<V>)
    ensures
        f.key@ == key@,
        f.value == value,
{
    Field { key: String::from_str(key), value }
}

/// The fields of the window info before the merge, under their keys.
pub fn default_fields<V>(defaults: WindowInfoDefaults<V>) -> (fields: Vec<Field<V>>)
    ensures
        entries(fields@) == default_entries(defaults),
{
    let mut fields: Vec<Field<V>> = Vec::new();
    fields.push(field("attached", defaults.attached));
    fields.push(field("id", defaults.id));
    fields.push(field("visible", defaults.visible));
    fields.push(field("focused", defaults.focused));
    fields.push(field("devtools", defaults.devtools));
    fields.push(field("loading", defaults.loading));
    fields.push(field("url", defaults.url));
    fields.push(field(LEFT_BOUNDS_KEY, defaults.left_bounds));
    fields.push(field("mainBounds", defaults.main_bounds));
    fields.push(field("display", defaults.display));
    assert(entries(fields@) =~= default_entries(defaults));
    fields
}

/// The window info. `defaults` is what is known without the kernel; `status`
/// holds the fields of the kernel's report on the companion window, or nothing
/// where the kernel did not answer with an object. The report's fields go over
/// the defaults; see [`window_info`].
pub fn get_left_window_info<V>(defaults: WindowInfoDefaults<V>, status: Option<Vec<Field<V>>>) -> (info:
    Vec<Field<V>>)
    ensures
        object_of(entries(info@)) == window_info(
            defaults,
            match status {
                Some(report) => Some(entries(report@)),
                None => None,
            },
        ),
{
    let mut info = default_fields(defaults);
    match status {
        None => info,
        Some(report) => {
            let mut report = report;
            let ghost start = object_of(entries(info@));
            let ghost whole = entries(report@);
            let ghost mut done: int = 0;
            while report.len() > 0
                invariant
                    0 <= done <= whole.len(),
                    entries(report@) == whole.skip(done),
                    object_of(entries(info@)) == merged(start, whole.take(done)),
                decreases report.len(),
            {
                let ghost report_before = report@;
                let ghost info_before = entries(info@);
                let next = report.remove(0);
                proof {
                    report_before.remove_ensures(0);
                    assert(entries(report_before).len() == report_before.len());
                    assert(whole.skip(done).len() == whole.len() - done);
                    assert forall|i: int| 0 <= i < report@.len() implies entries(report@)[i]
                        == whole.skip(done + 1)[i] by {
                        assert(report@[i] == report_before[i + 1]);
                        assert(entries(report_before)[i + 1] == whole.skip(done)[i + 1]);
                    }
                    assert(entries(report@) =~= whole.skip(done + 1));
                }
                info.push(Field { key: merge_key(next.key), value: next.value });
                proof {
                    assert(entries(report_before)[0] == whole.skip(done)[0]);
                    assert(entries(info@).drop_last() =~= info_before);
                    assert(entries(info@).last() == (merged_key(whole[done].0), whole[done].1));
                    assert(whole.take(done + 1).drop_last() =~= whole.take(done));
                    assert(whole.take(done + 1).last() == whole[done]);
                    done = done + 1;
                }
            }
            assert(whole.take(done) =~= whole);
            info
        },
    }
}

/// One page of the kernel's log.
#[derive(Debug)]
pub struct CoreLogPage {
    pub items: Vec<String>,
    pub total: u64,
}

/// The page `page` of the kernel's log, `size` entries long. No log is kept:
/// every page is empty and the total is zero.
pub fn get_core_logs(page: u32, size: u32) -> (r: Result<CoreLogPage, String>)
    ensures
        r matches Ok(logs) && logs.items@.len() == 0 && logs.total == 0,
{
    Ok(CoreLogPage { items: Vec::new(), total: 0 })
}

} // verus!
