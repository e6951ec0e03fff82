//! The requests the service sends to the table of ratings: the key of a
//! record, the record written for a new player, and the two updates that
//! change a player's name and rate, with the check that guards them.
use vstd::prelude::*;
use crate::decimal::{format_u64, lemma_parse_format_round_trip, spec_format_u64};
use crate::entity::{
    AttrValue, AttrValueView, Item, RateInfo, RateInfoView, rate_name,
    spec_rate_info_from_item, user_id_name, user_name_name,
};

verus! {

/// The record in which the table keeps the rating `info`: the id and the
/// name as strings, the rate as a number in decimal.
pub open spec fn spec_rate_item(info: RateInfoView) -> Map<Seq<char>, AttrValueView> {
    Map::empty()
        .insert(user_id_name(), AttrValueView::S(info.user_id))
        .insert(user_name_name(), AttrValueView::S(info.user_name))
        .insert(rate_name(), AttrValueView::N(spec_format_u64(info.rate as nat)))
}

/// The key of a player's record: the attribute `user_id` holding the id.
pub fn rate_key(user_id: &str) -> (key: (String, AttrValue))
    ensures
        key.0@ == user_id_name(),
        key.1@ == AttrValueView::S(user_id@),
{
    (String::from_str("user_id"), AttrValue::S(user_id.to_owned()))
}

/// The record written for the rating `info` when a player is added.
pub fn rate_item(info: &RateInfo) -> (item: Item)
    ensures
        item@ == spec_rate_item(info@),
{
    let mut item = Item::new();
    item.insert(String::from_str("user_id"), AttrValue::S(info.user_id.clone()));
    item.insert(String::from_str("user_name"), AttrValue::S(info.user_name.clone()));
    item.insert(String::from_str("rate"), AttrValue::N(format_u64(info.rate)));
    item
}

/// Why an update of a rating was refused.
#[derive(Debug, PartialEq, Eq, Structural, Clone, Copy)]
pub enum UpdateError {
    /// The requested rate lies further than `max_delta_rate` from the
    /// stored one.
    RateDeltaTooLarge { current: u64, requested: u64, max_delta_rate: u64 },
}

/// How far apart `a` and `b` are.
pub open spec fn spec_abs_diff(a: u64, b: u64) -> nat {
    if a >= b {
        (a - b) as nat
    } else {
        (b - a) as nat
    }
}

/// Whether a rate may change from `current` to `requested`: it may move by
/// at most `max_delta_rate` either way.
pub open spec fn rate_update_allowed(current: u64, requested: u64, max_delta_rate: u64) -> bool {
    spec_abs_diff(requested, current) <= max_delta_rate
}

/// Checks that a rate may change from `current` to `requested`.
pub fn check_rate_update(current: u64, requested: u64, max_delta_rate: u64) -> (result: Result<(), UpdateError>)
    ensures
        result is Ok <==> rate_update_allowed(current, requested, max_delta_rate),
        result is Err ==> result == Err::<(), UpdateError>(
            UpdateError::RateDeltaTooLarge { current, requested, max_delta_rate },
        ),
{
    let diff = if requested >= current { requested - current } else { current - requested };
    if diff <= max_delta_rate {
        Ok(())
    } else {
        Err(UpdateError::RateDeltaTooLarge { current, requested, max_delta_rate })
    }
}

/// One update of one attribute of a player's record.
pub struct UpdateRequest {
    /// The name of the key attribute, `user_id`.
    pub key_name: String,
    /// The value of the key attribute: the player's id.
    pub key: AttrValue,
    /// The attribute that the update sets.
    pub attribute: String,
    /// The update expression, `SET <attribute>=:<attribute>`.
    pub expression: String,
    /// The placeholder of the new value in the expression, `:<attribute>`.
    pub placeholder: String,
    /// The new value.
    pub value: AttrValue,
}

/// An update as plain values.
pub struct UpdateRequestView {
    pub key_name: Seq<char>,
    pub key: AttrValueView,
    pub attribute: Seq<char>,
    pub expression: Seq<char>,
    pub placeholder: Seq<char>,
    pub value: AttrValueView,
}

impl View for UpdateRequest {
    type V = UpdateRequestView;

    open spec fn view(&self) -> UpdateRequestView {
        UpdateRequestView {
            key_name: self.key_name@,
            key: self.key@,
            attribute: self.attribute@,
            expression: self.expression@,
            placeholder: self.placeholder@,
            value: self.value@,
        }
    }
}

/// The update that sets `attribute` to `value` in the record of `user_id`.
pub open spec fn spec_update(user_id: Seq<char>, attribute: Seq<char>, value: AttrValueView) -> UpdateRequestView {
    UpdateRequestView {
        key_name: user_id_name(),
        key: AttrValueView::S(user_id),
        attribute,
        expression: "SET "@ + attribute + "=:"@ + attribute,
        placeholder: ":"@ + attribute,
        value,
    }
}

/// The updates that bring a player's record to the rating `info`: first
/// the name, then the rate.
pub open spec fn spec_rate_updates(info: RateInfoView) -> Seq<UpdateRequestView> {
    seq![
        spec_update(info.user_id, user_name_name(), AttrValueView::S(info.user_name)),
        spec_update(info.user_id, rate_name(), AttrValueView::N(spec_format_u64(info.rate as nat))),
    ]
}

/// What the table's record `record` becomes under `update`, when the
/// update's key names it.
pub open spec fn apply_update(record: Map<Seq<char>, AttrValueView>, update: UpdateRequestView) -> Map<
    Seq<char>,
    AttrValueView,
> {
    if record.contains_key(update.key_name) && record[update.key_name] == update.key {
        record.insert(update.attribute, update.value)
    } else {
        record
    }
}

/// What `record` becomes under `updates`, in order.
pub open spec fn apply_updates(record: Map<Seq<char>, AttrValueView>, updates: Seq<UpdateRequestView>) -> Map<
    Seq<char>,
    AttrValueView,
>
    decreases updates.len(),
{
    if updates.len() == 0 {
        record
    } else {
        apply_updates(apply_update(record, updates[0]), updates.drop_first())
    }
}

/// The updates that bring the record of `info.user_id`, whose stored rate
/// is `current`, to the rating `info`; refused when the rate would move
/// further than `max_delta_rate`.
pub fn rate_updates(info: &RateInfo, current: u64, max_delta_rate: u64) -> (result: Result<
    Vec<UpdateRequest>,
    UpdateError,
>)
    ensures
        match result {
            Ok(updates) => rate_update_allowed(current, info.rate, max_delta_rate)
                && updates@.map_values(|u: UpdateRequest| u@) == spec_rate_updates(info@),
            Err(e) => !rate_update_allowed(current, info.rate, max_delta_rate)
                && e == UpdateError::RateDeltaTooLarge {
                    current,
                    requested: info.rate,
                    max_delta_rate,
                },
        },
{
    match check_rate_update(current, info.rate, max_delta_rate) {
        Ok(()) => {},
        Err(e) => { return Err(e); },
    }
    proof {
        reveal_strlit("user_id");
        reveal_strlit("user_name");
        reveal_strlit("rate");
        reveal_strlit("SET user_name=:user_name");
        reveal_strlit("SET rate=:rate");
        reveal_strlit(":user_name");
        reveal_strlit(":rate");
        reveal_strlit("SET ");
        reveal_strlit("=:");
        reveal_strlit(":");
    }
    let name_update = UpdateRequest {
        key_name: String::from_str("user_id"),
        key: AttrValue::S(info.user_id.clone()),
        attribute: String::from_str("user_name"),
        expression: String::from_str("SET user_name=:user_name"),
        placeholder: String::from_str(":user_name"),
        value: AttrValue::S(info.user_name.clone()),
    };
    let rate_update = UpdateRequest {
        key_name: String::from_str("user_id"),
        key: AttrValue::S(info.user_id.clone()),
        attribute: String::from_str("rate"),
        expression: String::from_str("SET rate=:rate"),
        placeholder: String::from_str(":rate"),
        value: AttrValue::N(format_u64(info.rate)),
    };
    assert(name_update@.expression =~= "SET "@ + user_name_name() + "=:"@ + user_name_name());
    assert(name_update@.placeholder =~= ":"@ + user_name_name());
    assert(rate_update@.expression =~= "SET "@ + rate_name() + "=:"@ + rate_name());
    assert(rate_update@.placeholder =~= ":"@ + rate_name());
    let mut updates: Vec<UpdateRequest> = Vec::new();
    updates.push(name_update);
    updates.push(rate_update);
    assert(updates@.map_values(|u: UpdateRequest| u@) =~= spec_rate_updates(info@));
    Ok(updates)
}

/// The three attribute names of a record differ from one another.
pub proof fn lemma_attribute_names_distinct()
    ensures
        user_id_name() != user_name_name(),
        user_id_name() != rate_name(),
        user_name_name() != rate_name(),
{
    reveal_strlit("user_id");
    reveal_strlit("user_name");
    reveal_strlit("rate");
    assert(user_id_name()[5] != user_name_name()[5]);
    assert(user_id_name().len() != rate_name().len());
    assert(user_name_name().len() != rate_name().len());
}

/// Reading back the record written for a new player gives the player's
/// rating, with the winner mark cleared (the table does not keep it).
pub proof fn lemma_read_after_insert(info: RateInfoView)
    ensures
        spec_rate_info_from_item(spec_rate_item(info)) == Ok::<RateInfoView, crate::entity::ItemError>(
            info.stored(),
        ),
{
    lemma_attribute_names_distinct();
    lemma_parse_format_round_trip(info.rate);
}

/// The updates to the rating `new` set the name and the rate of any record
/// whose key is `new`'s id, and leave every other attribute as it was; the
/// record then reads back as `new` (winner mark cleared).
pub proof fn lemma_read_after_update(record: Map<Seq<char>, AttrValueView>, new: RateInfoView)
    requires
        record.contains_key(user_id_name()),
        record[user_id_name()] == AttrValueView::S(new.user_id),
    ensures
        apply_updates(record, spec_rate_updates(new)) == record.insert(
            user_name_name(),
            AttrValueView::S(new.user_name),
        ).insert(rate_name(), AttrValueView::N(spec_format_u64(new.rate as nat))),
        spec_rate_info_from_item(apply_updates(record, spec_rate_updates(new)))
            == Ok::<RateInfoView, crate::entity::ItemError>(new.stored()),
{
    lemma_attribute_names_distinct();
    lemma_parse_format_round_trip(new.rate);
    let updates = spec_rate_updates(new);
    let first = apply_update(record, updates[0]);
    let second = apply_update(first, updates[1]);
    assert(updates.drop_first().drop_first() =~= Seq::<UpdateRequestView>::empty());
    assert(apply_updates(first, updates.drop_first()) == apply_updates(second, updates.drop_first().drop_first()));
    assert(second =~= record.insert(user_name_name(), AttrValueView::S(new.user_name)).insert(
        rate_name(),
        AttrValueView::N(spec_format_u64(new.rate as nat)),
    ));
}

/// Reading back a player's stored record after the updates to the rating
/// `new` gives `new` (winner mark cleared), whatever the record held before.
pub proof fn lemma_read_after_update_of_stored(old: RateInfoView, new: RateInfoView)
    requires
        old.user_id == new.user_id,
    ensures
        apply_updates(spec_rate_item(old), spec_rate_updates(new)) == spec_rate_item(new),
        spec_rate_info_from_item(apply_updates(spec_rate_item(old), spec_rate_updates(new)))
            == Ok::<RateInfoView, crate::entity::ItemError>(new.stored()),
{
    lemma_attribute_names_distinct();
    lemma_read_after_update(spec_rate_item(old), new);
    assert(spec_rate_item(old).insert(user_name_name(), AttrValueView::S(new.user_name)).insert(
        rate_name(),
        AttrValueView::N(spec_format_u64(new.rate as nat)),
    ) =~= spec_rate_item(new));
}

/// An update is allowed exactly when the requested rate lies within
/// `max_delta_rate` of the stored one, on either side, whatever the stored
/// rate (zero included).
pub proof fn lemma_update_allowed_within_cap(current: u64, requested: u64, max_delta_rate: u64)
    ensures
        rate_update_allowed(current, requested, max_delta_rate) <==> (requested <= current
            + max_delta_rate && current <= requested + max_delta_rate),
{
}

} // verus!
