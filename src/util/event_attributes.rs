use vstd::prelude::*;

use crate::types::contract_info::ContractInfo;
use crate::util::constants::{
    ADDITIONAL_METADATA_KEY, CONTRACT_INFO_KEY, ASSET_TYPE_KEY, ENTITY_ADDRESSES_KEY, EVENT_TYPE_KEY, NEW_VALUE_KEY,
    RESULTS_SCOPE_ADDRESS_KEY, VALIDATION_REQUEST_ID_KEY, VALIDATION_STATUS_KEY,
    VALIDATION_TYPE_KEY, VALIDATOR_ADDRESS_KEY,
};
use crate::util::text::{
    decimal_string, decimal_text,
    compare_text, join_strings, join_text, lemma_text_lt_transitive, text_le, text_lt,
};

verus! {

/// The kinds of event that the contract's operations emit.
#[derive(Clone, Copy, Debug, PartialEq, Eq, Structural)]
pub enum EventType {
    InstantiateContract,
    MigrateContract,
    AddEntity,
    UpdateEntity,
    AddValidationDefinition,
    UpdateValidationDefinition,
    DeleteValidationDefinition,
    AddValidatorConfiguration,
    UpdateValidatorConfiguration,
    AddValidationRequest,
    UpdateValidationRequest,
    DeleteValidationRequest,
    UpdateSettings,
}

impl EventType {
    /// The name under which an event of this type is published.
    pub open spec fn name_text(self) -> Seq<char> {
        match self {
            EventType::InstantiateContract => "instantiate_contract"@,
            EventType::MigrateContract => "migrate_contract"@,
            EventType::AddEntity => "add_entity"@,
            EventType::UpdateEntity => "update_entity"@,
            EventType::AddValidationDefinition => "add_validation_definition"@,
            EventType::UpdateValidationDefinition => "update_validation_definition"@,
            EventType::DeleteValidationDefinition => "delete_validation_definition"@,
            EventType::AddValidatorConfiguration => "add_validator_configuration"@,
            EventType::UpdateValidatorConfiguration => "update_validator_configuration"@,
            EventType::AddValidationRequest => "create_validation_request"@,
            EventType::UpdateValidationRequest => "update_validation_request"@,
            EventType::DeleteValidationRequest => "delete_validation_request"@,
            EventType::UpdateSettings => "update_settings"@,
        }
    }

    /// The name under which an event of this type is published.
    pub fn event_name(self) -> (r: String)
        ensures
            r@ == self.name_text(),
    {
        let name = match self {
            EventType::InstantiateContract => "instantiate_contract",
            EventType::MigrateContract => "migrate_contract",
            EventType::AddEntity => "add_entity",
            EventType::UpdateEntity => "update_entity",
            EventType::AddValidationDefinition => "add_validation_definition",
            EventType::UpdateValidationDefinition => "update_validation_definition",
            EventType::DeleteValidationDefinition => "delete_validation_definition",
            EventType::AddValidatorConfiguration => "add_validator_configuration",
            EventType::UpdateValidatorConfiguration => "update_validator_configuration",
            EventType::AddValidationRequest => "create_validation_request",
            EventType::UpdateValidationRequest => "update_validation_request",
            EventType::DeleteValidationRequest => "delete_validation_request",
            EventType::UpdateSettings => "update_settings",
        };
        String::from_str(name)
    }
}

/// The key/value attributes that an operation emits, in the order they were added.
pub struct EventAttributes {
    attributes: Vec<(String, String)>,
}

impl View for EventAttributes {
    type V = Seq<(Seq<char>, Seq<char>)>;

    closed spec fn view(&self) -> Seq<(Seq<char>, Seq<char>)> {
        self.attributes@.map_values(|a: (String, String)| (a.0@, a.1@))
    }
}

impl EventAttributes {
    /// Starts the attributes of an event with its type.
    pub fn new(event_type: EventType) -> (r: Self)
        ensures
            r@ == seq![(EVENT_TYPE_KEY@, event_type.name_text())],
    {
        let r = EventAttributes {
            attributes: vec![(String::from_str(EVENT_TYPE_KEY), event_type.event_name())],
        };
        assert(r@ =~= seq![(EVENT_TYPE_KEY@, event_type.name_text())]);
        r
    }

    fn with(self, key: &str, value: String) -> (r: Self)
        ensures
            r@ == self@.push((key@, value@)),
    {
        let mut attributes = self.attributes;
        attributes.push((String::from_str(key), value));
        let r = EventAttributes { attributes };
        assert(r@ =~= self@.push((key@, value@)));
        r
    }

    /// Adds the asset type of the event.
    pub fn set_asset_type(self, asset_type: &str) -> (r: Self)
        ensures
            r@ == self@.push((ASSET_TYPE_KEY@, asset_type@)),
    {
        self.with(ASSET_TYPE_KEY, String::from_str(asset_type))
    }

    /// Adds the id of the validation request of the event.
    pub fn set_validation_request_id(self, validation_request_id: &str) -> (r: Self)
        ensures
            r@ == self@.push((VALIDATION_REQUEST_ID_KEY@, validation_request_id@)),
    {
        self.with(VALIDATION_REQUEST_ID_KEY, String::from_str(validation_request_id))
    }

    /// Adds the status of the validation request of the event.
    pub fn set_validation_status(self, validation_status: &str) -> (r: Self)
        ensures
            r@ == self@.push((VALIDATION_STATUS_KEY@, validation_status@)),
    {
        self.with(VALIDATION_STATUS_KEY, String::from_str(validation_status))
    }

    /// Adds the validation type of the event.
    pub fn set_validation_type(self, validation_type: &str) -> (r: Self)
        ensures
            r@ == self@.push((VALIDATION_TYPE_KEY@, validation_type@)),
    {
        self.with(VALIDATION_TYPE_KEY, String::from_str(validation_type))
    }

    /// Adds the scope address of the validation results of the event.
    pub fn set_results_scope_address(self, scope_address: &str) -> (r: Self)
        ensures
            r@ == self@.push((RESULTS_SCOPE_ADDRESS_KEY@, scope_address@)),
    {
        self.with(RESULTS_SCOPE_ADDRESS_KEY, String::from_str(scope_address))
    }

    /// Adds the address of the validator of the event.
    pub fn set_validator(self, validator_address: &str) -> (r: Self)
        ensures
            r@ == self@.push((VALIDATOR_ADDRESS_KEY@, validator_address@)),
    {
        self.with(VALIDATOR_ADDRESS_KEY, String::from_str(validator_address))
    }

    /// Adds the addresses of the entities of the event, joined with ", ".
    pub fn set_entity_addresses(self, addresses: &Vec<String>) -> (r: Self)
        ensures
            r@ == self@.push((ENTITY_ADDRESSES_KEY@, join_text(addresses.deep_view(), ", "@))),
    {
        let joined = join_strings(addresses, ", ");
        self.with(ENTITY_ADDRESSES_KEY, joined)
    }

    /// Adds a new value set by the event.
    pub fn set_new_value(self, new_value: &str) -> (r: Self)
        ensures
            r@ == self@.push((NEW_VALUE_KEY@, new_value@)),
    {
        self.with(NEW_VALUE_KEY, String::from_str(new_value))
    }

    /// Adds the rendering of the changed fields, unless there are none.
    pub fn set_additional_metadata(self, additional_metadata: &EventAdditionalMetadata) -> (r: Self)
        requires
            additional_metadata.well_formed(),
        ensures
            r@ == with_metadata(self@, *additional_metadata),
    {
        if additional_metadata.has_metadata() {
            let text = additional_metadata.get_meta_string();
            self.with(ADDITIONAL_METADATA_KEY, text)
        } else {
            self
        }
    }

    /// Adds the contract's settings.
    pub fn set_contract_info(self, contract_info: &ContractInfo) -> (r: Self)
        ensures
            r@ == self@.push((CONTRACT_INFO_KEY@, contract_info_text(*contract_info))),
    {
        let text = render_contract_info(contract_info);
        self.with(CONTRACT_INFO_KEY, text)
    }

    /// Adds an attribute with a key of the caller's choice.
    pub fn add_attribute(self, key: &str, value: &str) -> (r: Self)
        ensures
            r@ == self@.push((key@, value@)),
    {
        self.with(key, String::from_str(value))
    }

    /// The attributes as key/value pairs, in the order they were added.
    pub fn into_pairs(self) -> (r: Vec<(String, String)>)
        ensures
            r@.map_values(|a: (String, String)| (a.0@, a.1@)) == self@,
    {
        self.attributes
    }
}

/// Attributes followed by the rendering of the changed fields, unless there are none.
pub open spec fn with_metadata(
    attributes: Seq<(Seq<char>, Seq<char>)>,
    metadata: EventAdditionalMetadata,
) -> Seq<(Seq<char>, Seq<char>)> {
    if metadata@.is_empty() {
        attributes
    } else {
        attributes.push((ADDITIONAL_METADATA_KEY@, metadata.meta_text()))
    }
}

/// The contract's settings as text: each field as `name=value`, joined with ", ".
pub open spec fn contract_info_text(info: ContractInfo) -> Seq<char> {
    "admin="@ + info.admin@ + ", bind_name="@ + info.bind_name@ + ", contract_name="@
        + info.contract_name@ + ", contract_type="@ + info.contract_type@ + ", contract_version="@
        + info.contract_version@ + ", create_request_nhash_fee="@ + decimal_text(
        info.create_request_nhash_fee as nat,
    )
}

fn render_contract_info(info: &ContractInfo) -> (r: String)
    ensures
        r@ == contract_info_text(*info),
{
    let mut r = String::from_str("admin=");
    r.append(info.admin.as_str());
    r.append(", bind_name=");
    r.append(info.bind_name.as_str());
    r.append(", contract_name=");
    r.append(info.contract_name.as_str());
    r.append(", contract_type=");
    r.append(info.contract_type.as_str());
    r.append(", contract_version=");
    r.append(info.contract_version.as_str());
    r.append(", create_request_nhash_fee=");
    let fee = decimal_string(info.create_request_nhash_fee);
    r.append(fee.as_str());
    r
}

impl Default for EventAdditionalMetadata {
    fn default() -> (r: Self)
        ensures
            r.well_formed(),
            r@ == Set::<(Seq<char>, Seq<char>)>::empty(),
    {
        Self::new()
    }
}

/// The rendering of one changed field: `[key=value]`.
pub open spec fn entry_text(key: Seq<char>, value: Seq<char>) -> Seq<char> {
    seq!['['] + key + seq!['='] + value + seq![']']
}

/// Whether texts are in non-decreasing lexicographic order.
pub open spec fn texts_sorted(s: Seq<Seq<char>>) -> bool {
    forall|i: int, j: int| 0 <= i < j < s.len() ==> text_le(s[i], s[j])
}

/// A record of the fields that an update changed, as key/value texts, rendered for an event
/// sorted by their `[key=value]` text.
pub struct EventAdditionalMetadata {
    fields: Vec<(String, String, String)>,
}

impl View for EventAdditionalMetadata {
    type V = Set<(Seq<char>, Seq<char>)>;

    open spec fn view(&self) -> Set<(Seq<char>, Seq<char>)> {
        self.entries().to_set()
    }
}

impl EventAdditionalMetadata {
    /// The recorded key/value pairs in the order in which they are rendered.
    pub closed spec fn entries(&self) -> Seq<(Seq<char>, Seq<char>)> {
        self.fields@.map_values(|f: (String, String, String)| (f.0@, f.1@))
    }

    closed spec fn texts(&self) -> Seq<Seq<char>> {
        self.fields@.map_values(|f: (String, String, String)| f.2@)
    }

    /// The renderings of the recorded pairs, in order.
    pub open spec fn rendered(&self) -> Seq<Seq<char>> {
        self.entries().map_values(|e: (Seq<char>, Seq<char>)| entry_text(e.0, e.1))
    }

    /// The text that `get_meta_string` returns.
    pub open spec fn meta_text(&self) -> Seq<char> {
        join_text(self.rendered(), ", "@)
    }

    /// Each key is recorded once, and the pairs are kept sorted by their rendering.
    pub open spec fn well_formed(&self) -> bool {
        &&& forall|i: int, j: int|
            0 <= i < j < self.entries().len() ==> self.entries()[i].0 != self.entries()[j].0
        &&& texts_sorted(self.rendered())
        &&& self.texts_match()
    }

    pub closed spec fn texts_match(&self) -> bool {
        &&& self.texts().len() == self.entries().len()
        &&& forall|i: int|
            0 <= i < self.texts().len() ==> self.texts()[i] == entry_text(
                self.entries()[i].0,
                self.entries()[i].1,
            )
    }

    /// An empty record.
    pub fn new() -> (r: Self)
        ensures
            r.well_formed(),
            r@ == Set::<(Seq<char>, Seq<char>)>::empty(),
    {
        let r = EventAdditionalMetadata { fields: Vec::new() };
        assert(r.entries() =~= Seq::<(Seq<char>, Seq<char>)>::empty());
        assert(r@ =~= Set::<(Seq<char>, Seq<char>)>::empty());
        r
    }

    /// Whether any field has been recorded.
    pub fn has_metadata(&self) -> (r: bool)
        requires
            self.well_formed(),
        ensures
            r == !self@.is_empty(),
    {
        if self.fields.len() == 0 {
            assert(self.entries() =~= Seq::<(Seq<char>, Seq<char>)>::empty());
            assert(self@ =~= Set::<(Seq<char>, Seq<char>)>::empty());
            false
        } else {
            assert(self@.contains(self.entries()[0]));
            true
        }
    }

    fn render(key: &str, value: &str) -> (r: String)
        ensures
            r@ == entry_text(key@, value@),
    {
        proof {
            reveal_strlit("[");
            reveal_strlit("=");
            reveal_strlit("]");
        }
        let mut r = String::from_str("[");
        r.append(key);
        r.append("=");
        r.append(value);
        r.append("]");
        assert(r@ =~= entry_text(key@, value@));
        r
    }

    fn remove_key(&mut self, key: &str)
        requires
            old(self).well_formed(),
        ensures
            final(self).well_formed(),
            forall|j: int| 0 <= j < final(self).entries().len() ==> final(self).entries()[j].0 != key@,
            forall|e: (Seq<char>, Seq<char>)| #[trigger] final(self)@.contains(e) == (old(self)@.contains(e) && e.0 != key@),
    {
        let ghost old_entries = self.entries();
        // Take out the value recorded for the key, if any.
        let mut i: usize = 0;
        let mut found: Option<usize> = None;
        while i < self.fields.len()
            invariant
                self.fields@ == old(self).fields@,
                i <= self.fields.len(),
                found matches Some(j) ==> j < self.fields.len() && self.entries()[j as int].0 == key@,
                found is None ==> forall|j: int| 0 <= j < i ==> self.entries()[j].0 != key@,
            decreases self.fields.len() - i,
        {
            if found.is_none() && compare_text(self.fields[i].0.as_str(), key) == 0 {
                found = Some(i);
            }
            i = i + 1;
        }
        if let Some(i) = found {
            let ghost before = self.fields@;
            self.fields.remove(i);
            assert(self.fields@ =~= before.remove(i as int));
            assert forall|a: int, b: int| 0 <= a < b < self.rendered().len() implies text_le(
                self.rendered()[a],
                self.rendered()[b],
            ) by {
                let oa = if a < i { a } else { a + 1 };
                let ob = if b < i { b } else { b + 1 };
                assert(self.entries()[a] == old_entries[oa]);
                assert(self.entries()[b] == old_entries[ob]);
                assert(self.rendered()[a] == old(self).rendered()[oa]);
                assert(self.rendered()[b] == old(self).rendered()[ob]);
            }
            assert forall|a: int, b: int| 0 <= a < b < self.entries().len() implies self.entries()[a].0
                != self.entries()[b].0 by {
                let oa = if a < i { a } else { a + 1 };
                let ob = if b < i { b } else { b + 1 };
                assert(self.entries()[a] == old_entries[oa]);
                assert(self.entries()[b] == old_entries[ob]);
            }
            assert forall|j: int| 0 <= j < self.entries().len() implies self.entries()[j].0 != key@ by {
                let oj = if j < i { j } else { j + 1 };
                assert(self.entries()[j] == old_entries[oj]);
                if oj != i as int {
                    assert(old_entries[oj].0 != old_entries[i as int].0);
                }
            }
            assert forall|e: (Seq<char>, Seq<char>)| #[trigger] self@.contains(e) == (old(self)@.contains(e) && e.0 != key@) by {
                if self@.contains(e) {
                    let j = choose|j: int| 0 <= j < self.entries().len() && self.entries()[j] == e;
                    let oj = if j < i { j } else { j + 1 };
                    assert(old_entries[oj] == e);
                }
                if old(self)@.contains(e) && e.0 != key@ {
                    let oj = choose|j: int| 0 <= j < old_entries.len() && old_entries[j] == e;
                    assert(oj != i as int);
                    let j = if oj < i { oj } else { oj - 1 };
                    assert(self.entries()[j] == e);
                }
            }
        } else {
            assert forall|e: (Seq<char>, Seq<char>)| #[trigger] self@.contains(e) == (old(self)@.contains(e) && e.0 != key@) by {
                if self@.contains(e) {
                    let j = choose|j: int| 0 <= j < self.entries().len() && self.entries()[j] == e;
                    assert(self.entries()[j].0 != key@);
                }
            }
        }
        assert(self.texts_match()) by {
            if let Some(i) = found {
                assert forall|j: int| 0 <= j < self.texts().len() implies self.texts()[j]
                    == entry_text(self.entries()[j].0, self.entries()[j].1) by {
                    let oj = if j < i { j } else { j + 1 };
                    assert(self.entries()[j] == old_entries[oj]);
                    assert(self.texts()[j] == old(self).texts()[oj]);
                }
            }
        }
        assert(self.well_formed());
    }

    fn insert_sorted(&mut self, key: &str, value: &str)
        requires
            old(self).well_formed(),
            forall|j: int| 0 <= j < old(self).entries().len() ==> old(self).entries()[j].0 != key@,
        ensures
            final(self).well_formed(),
            forall|e: (Seq<char>, Seq<char>)| #[trigger] final(self)@.contains(e) == (old(self)@.contains(e) || e == (key@, value@)),
    {
        let ghost mid = self.entries();
        let ghost mid_set = self@;
        // Insert the new pair after every pair whose rendering is not greater.
        let text = Self::render(key, value);
        let mut p: usize = 0;
        while p < self.fields.len()
            invariant
                self.well_formed(),
                self.entries() == mid,
                text@ == entry_text(key@, value@),
                p <= self.fields.len(),
                forall|j: int| 0 <= j < p ==> text_le(#[trigger] self.rendered()[j], text@),
            ensures
                p < self.fields.len() ==> text_lt(text@, self.rendered()[p as int]),
            decreases self.fields.len() - p,
        {
            assert(self.texts()[p as int] == self.rendered()[p as int]);
            if compare_text(self.fields[p].2.as_str(), text.as_str()) > 0 {
                break;
            }
            p = p + 1;
        }
        let ghost before = self.fields@;
        let ghost before_rendered = self.rendered();
        proof {
            if p < before.len() {
                assert(self.texts()[p as int] == self.rendered()[p as int]);
            }
        }
        self.fields.insert(p, (String::from_str(key), String::from_str(value), text));
        assert(self.fields@ =~= before.insert(p as int, self.fields@[p as int]));
        assert forall|a: int, b: int| 0 <= a < b < self.rendered().len() implies text_le(
            self.rendered()[a],
            self.rendered()[b],
        ) by {
            if a < p && b < p {
                assert(self.rendered()[a] == before_rendered[a]);
                assert(self.rendered()[b] == before_rendered[b]);
            } else if a < p && b == p {
                assert(self.rendered()[a] == before_rendered[a]);
            } else if a < p {
                assert(self.rendered()[a] == before_rendered[a]);
                assert(self.rendered()[b] == before_rendered[b - 1]);
                assert(text_le(before_rendered[a], before_rendered[b - 1]));
            } else if a == p {
                assert(self.rendered()[b] == before_rendered[b - 1]);
                assert(text_le(before_rendered[p as int], before_rendered[b - 1]));
                assert(text_lt(text@, before_rendered[p as int]));
                if before_rendered[p as int] != before_rendered[b - 1] {
                    lemma_text_lt_transitive(text@, before_rendered[p as int], before_rendered[b - 1]);
                }
            } else {
                assert(self.rendered()[a] == before_rendered[a - 1]);
                assert(self.rendered()[b] == before_rendered[b - 1]);
            }
        }
        assert forall|a: int, b: int| 0 <= a < b < self.entries().len() implies self.entries()[a].0
            != self.entries()[b].0 by {
            if a != p && b != p {
                let oa = if a < p { a } else { a - 1 };
                let ob = if b < p { b } else { b - 1 };
                assert(self.entries()[a] == mid[oa]);
                assert(self.entries()[b] == mid[ob]);
            } else if a == p {
                assert(self.entries()[b] == mid[b - 1]);
                assert(mid.to_set().contains(mid[b - 1]));
            } else {
                assert(self.entries()[a] == mid[a]);
                assert(mid.to_set().contains(mid[a]));
            }
        }
        assert(self.texts_match()) by {
            assert forall|j: int| 0 <= j < self.texts().len() implies self.texts()[j] == entry_text(
                self.entries()[j].0,
                self.entries()[j].1,
            ) by {
                if j == p {
                    assert(self.texts()[j] == text@);
                    assert(self.entries()[j] == (key@, value@));
                } else if j < p {
                    assert(self.texts()[j] == old(self).texts()[j]);
                    assert(self.entries()[j] == mid[j]);
                } else {
                    assert(self.texts()[j] == old(self).texts()[j - 1]);
                    assert(self.entries()[j] == mid[j - 1]);
                }
            }
        }
        assert forall|e: (Seq<char>, Seq<char>)| #[trigger] self@.contains(e) == (mid_set.contains(e) || e == (key@, value@)) by {
            if self@.contains(e) {
                let j = choose|j: int| 0 <= j < self.entries().len() && self.entries()[j] == e;
                if j < p {
                    assert(mid[j] == e);
                } else if j > p {
                    assert(mid[j - 1] == e);
                }
            }
            if mid_set.contains(e) {
                let oj = choose|j: int| 0 <= j < mid.len() && mid[j] == e;
                let j = if oj < p { oj } else { oj + 1 };
                assert(self.entries()[j] == e);
            }
            if e == (key@, value@) {
                assert(self.entries()[p as int] == e);
            }
        }
    }

    /// Records `value` for `key`, in place of any value recorded for it before.
    pub fn add_metadata(&mut self, key: &str, value: &str)
        requires
            old(self).well_formed(),
        ensures
            final(self).well_formed(),
            final(self)@ == old(self)@.filter(|e: (Seq<char>, Seq<char>)| e.0 != key@).insert(
                (key@, value@),
            ),
    {
        self.remove_key(key);
        self.insert_sorted(key, value);
        assert(self@ =~= old(self)@.filter(|e: (Seq<char>, Seq<char>)| e.0 != key@).insert(
            (key@, value@),
        ));
    }

    /// The rendering of the recorded pairs, `[key=value]` each, sorted and joined with ", ".
    pub fn get_meta_string(&self) -> (r: String)
        requires
            self.well_formed(),
        ensures
            r@ == self.meta_text(),
    {
        let mut texts: Vec<String> = Vec::new();
        let mut i: usize = 0;
        while i < self.fields.len()
            invariant
                self.well_formed(),
                i <= self.fields.len(),
                texts.deep_view() =~= self.rendered().take(i as int),
            decreases self.fields.len() - i,
        {
            assert(self.texts()[i as int] == self.rendered()[i as int]);
            let t = self.fields[i].2.clone();
            let ghost prev = texts.deep_view();
            texts.push(t);
            assert(texts.deep_view() =~= prev.push(t@));
            assert(self.rendered().take(i + 1) =~= self.rendered().take(i as int).push(t@));
            i = i + 1;
        }
        assert(self.rendered().take(i as int) =~= self.rendered());
        join_strings(&texts, ", ")
    }
}

} // verus!
