//! Setting rows: writing them and listing them.

use vstd::prelude::*;

use crate::order::Ranked;
use crate::text::{blank_text, is_blank, text_le, text_no_later, text_or, text_or_else};

verus! {

/// A row of the `settings` table.
#[derive(Debug)]
pub struct SettingRecord {
    pub setting_key: String,
    pub setting_value: String,
    pub value_type: String,
    pub created_at: String,
    pub updated_at: String,
}

/// What a caller gives to write a setting.
#[derive(Debug)]
pub struct UpsertSettingInput {
    pub setting_key: String,
    pub setting_value: String,
    pub value_type: Option<String>,
}

/// Why a setting cannot be written from `input`, if it cannot.
pub open spec fn setting_refusal(input: UpsertSettingInput) -> Option<Seq<char>> {
    if blank_text(input.setting_key@) {
        Some("settingKey is required"@)
    } else {
        None
    }
}

/// `row` holds the values that writing `input` at time `now` gives the setting.
pub open spec fn is_setting_row(row: SettingRecord, input: UpsertSettingInput, now: Seq<char>) -> bool {
    &&& row.setting_key@ == input.setting_key@
    &&& row.setting_value@ == input.setting_value@
    &&& row.value_type@ == text_or(input.value_type, "json"@)
    &&& row.created_at@ == now
    &&& row.updated_at@ == now
}

/// Checks that the setting key is not blank.
pub fn check_setting(input: &UpsertSettingInput) -> (r: Result<(), String>)
    ensures
        match setting_refusal(*input) {
            Some(reason) => r matches Err(e) && e@ == reason,
            None => r is Ok,
        },
        r is Ok <==> !blank_text(input.setting_key@),
{
    if is_blank(input.setting_key.as_str()) {
        return Err(String::from_str("settingKey is required"));
    }
    Ok(())
}

/// The values that writing `input` at time `now` gives the setting: its value, its value
/// type (`json` when none is given) and `now` as update time. A new setting takes `now`
/// as creation time too; the insert-or-update statement keeps the creation time of a
/// setting that is already stored.
pub fn new_setting_record(input: UpsertSettingInput, now: String) -> (r: Result<SettingRecord, String>)
    ensures
        match setting_refusal(input) {
            Some(reason) => r matches Err(e) && e@ == reason,
            None => r matches Ok(row) && is_setting_row(row, input, now@),
        },
        r is Ok <==> !blank_text(input.setting_key@),
        r matches Ok(row) ==> {
            &&& row.setting_key@ == input.setting_key@
            &&& row.setting_value@ == input.setting_value@
            &&& (input.value_type matches Some(t) ==> row.value_type@ == t@)
            &&& (input.value_type is None ==> row.value_type@ == "json"@)
            &&& row.created_at@ == now@
            &&& row.updated_at@ == now@
        },
{
    match check_setting(&input) {
        Err(e) => Err(e),
        Ok(()) => {
            let created_at = now.clone();
            Ok(SettingRecord {
                setting_key: input.setting_key,
                setting_value: input.setting_value,
                value_type: text_or_else(input.value_type, "json"),
                created_at,
                updated_at: now,
            })
        },
    }
}

/// A setting is refused only for a blank key: any value, empty or blank ones too, is
/// written.
pub proof fn lemma_setting_refusal_reasons(input: UpsertSettingInput)
    ensures
        setting_refusal(input) is None <==> !blank_text(input.setting_key@),
{
}

/// A written setting keeps the caller's key and value, and its value type where one is
/// given.
pub proof fn lemma_setting_row_keeps_input(row: SettingRecord, input: UpsertSettingInput, now: Seq<char>)
    requires
        is_setting_row(row, input, now),
    ensures
        row.setting_key@ == input.setting_key@,
        row.setting_value@ == input.setting_value@,
        input.value_type matches Some(t) ==> row.value_type@ == t@,
        row.updated_at@ == now,
{
}

impl Ranked for SettingRecord {
    /// The setting updated later stands first.
    open spec fn precedes(a: Self, b: Self) -> bool {
        text_le(b.updated_at@, a.updated_at@)
    }

    proof fn lemma_precedes_total(a: Self, b: Self) {
        crate::text::lemma_text_le_total(a.updated_at@, b.updated_at@);
    }

    proof fn lemma_precedes_transitive(a: Self, b: Self, c: Self) {
        crate::text::lemma_text_le_transitive(c.updated_at@, b.updated_at@, a.updated_at@);
    }

    fn may_precede(&self, other: &Self) -> (r: bool) {
        text_no_later(other.updated_at.as_str(), self.updated_at.as_str())
    }
}

/// The settings as the settings list shows them: the most recently updated first, by the
/// text order of `updated_at`.
pub fn order_settings_by_recency(settings: Vec<SettingRecord>) -> (r: Vec<SettingRecord>)
    ensures
        r@.to_multiset() == settings@.to_multiset(),
        forall|i: int, j: int|
            0 <= i < j < r@.len() ==> text_le(#[trigger] r@[j].updated_at@, #[trigger] r@[i].updated_at@),
{
    let r = crate::order::sort_for_listing(settings);
    assert forall|i: int, j: int| 0 <= i < j < r@.len() implies text_le(
        #[trigger] r@[j].updated_at@,
        #[trigger] r@[i].updated_at@,
    ) by {
        assert(SettingRecord::precedes(r@[i], r@[j]));
    }
    r
}

} // verus!
