//! Properties that relate saving and loading.
use vstd::prelude::*;

use crate::settings::{Settings, SettingsView};
use crate::store::{
    held_after_save, key_slot, loaded_form, merged_form, produced_record, restored_key,
    stored_form, ReadView,
};

verus! {

/// Loading the record that a save of `s` persisted gives back `s`, field for
/// field, also when one or both API keys are empty.
pub proof fn lemma_load_after_save(s: Settings)
    ensures
        loaded_form(ReadView::Record(stored_form(s@))) == s@,
{
    lemma_restored_key(s@.openai.api_key);
    lemma_restored_key(s@.anthropic.api_key);
}

proof fn lemma_restored_key(k: Seq<char>)
    ensures
        restored_key(key_slot(k), Seq::empty()) == k,
{
    if k.len() == 0 {
        assert(k =~= Seq::empty());
    }
}

/// A save whose anthropic key is empty leaves no anthropic key in the store,
/// whatever an earlier save had put there, and the next load gives an empty
/// key.
pub proof fn lemma_cleared_key_not_retained(held: ReadView, earlier: Settings, s: Settings)
    requires
        s.anthropic.api_key@.len() == 0,
    ensures
        ({
            let after = held_after_save(
                held_after_save(held, produced_record(Ok(earlier))),
                produced_record(Ok(s)),
            );
            &&& after matches ReadView::Record(rec) && rec.api_keys.anthropic is None
            &&& loaded_form(after).anthropic.api_key.len() == 0
        }),
{
}

/// A save of input that could not be decoded leaves whatever the store held
/// unchanged.
pub proof fn lemma_rejected_save_keeps_record(held: ReadView, detail: String)
    ensures
        held_after_save(held, produced_record(Err(detail))) == held,
{
}

/// Saving the same settings twice persists the same record as saving them
/// once, and two saves of equal settings produce equal records.
pub proof fn lemma_save_idempotent(held: ReadView, s: Settings, t: Settings)
    ensures
        held_after_save(held_after_save(held, produced_record(Ok(s))), produced_record(Ok(s)))
            == held_after_save(held, produced_record(Ok(s))),
        s@ == t@ ==> produced_record(Ok(s)) == produced_record(Ok(t)),
{
}

/// Saving the settings that a load returned persists the very record that
/// was loaded, when that record came from a save.
pub proof fn lemma_resave_after_load(s: SettingsView)
    ensures
        stored_form(merged_form(stored_form(s))) == stored_form(s),
{
    let m = merged_form(stored_form(s));
    lemma_restored_key(s.openai.api_key);
    lemma_restored_key(s.anthropic.api_key);
    assert(m.openai.api_key == s.openai.api_key);
    assert(m.anthropic.api_key == s.anthropic.api_key);
}

} // verus!
