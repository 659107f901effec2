//! Key characteristics: the parameters that hold of a key at one security
//! level.

use crate::cbor::{
    array_of, array_value, decode_all, items_of, lemma_decode_all_error,
    lemma_decode_all_round_trip, lemma_decode_all_step, result_view, result_views, tuple_of,
    value_array, value_tuple, views, CborError, CborValue, Item,
};
use crate::wire::keymint::SecurityLevel;
use crate::wire::params::{KeyParam, KeyParamView};
use vstd::prelude::*;

verus! {

/// How one key parameter is written.
pub open spec fn param_encoder() -> spec_fn(KeyParamView) -> Item {
    |p: KeyParamView| p.item()
}

/// How one key parameter is read.
pub open spec fn param_decoder() -> spec_fn(Item) -> Result<KeyParamView, CborError> {
    |item: Item| KeyParamView::from_item(item)
}

/// The CBOR form of a list of key parameters: the array of their forms.
pub open spec fn params_item(params: Seq<KeyParamView>) -> Item {
    Item::Array(params.map_values(param_encoder()))
}

/// What [`params_from_cbor_value`] makes of an item.
pub open spec fn params_from_item(item: Item) -> Result<Seq<KeyParamView>, CborError> {
    match array_of(item) {
        Err(e) => Err(e),
        Ok(a) => decode_all(a, param_decoder()),
    }
}

/// Reading the CBOR form of a list of parameters gives the list back.
pub proof fn lemma_params_round_trip(params: Seq<KeyParamView>)
    ensures
        params_from_item(params_item(params)) == Ok::<Seq<KeyParamView>, CborError>(params),
{
    assert forall|p: KeyParamView| #[trigger]
        param_decoder()(param_encoder()(p)) == Ok::<KeyParamView, CborError>(p) by {
        p.lemma_round_trip();
    }
    lemma_decode_all_round_trip(params, param_encoder(), param_decoder());
}

/// Copies a list of key parameters.
pub fn duplicate_params(params: &Vec<KeyParam>) -> (r: Vec<KeyParam>)
    ensures
        views(r@) == views(params@),
{
    let mut out: Vec<KeyParam> = Vec::new();
    let mut i: usize = 0;
    while i < params.len()
        invariant
            i <= params.len(),
            out@.len() == i,
            forall|j: int| 0 <= j < i ==> out@[j]@ == params@[j]@,
        decreases params.len() - i,
    {
        out.push(params[i].duplicate());
        i += 1;
    }
    assert(views(out@) =~= views(params@));
    out
}

/// Writes a list of key parameters as an array.
pub fn params_to_cbor_value(params: &Vec<KeyParam>) -> (r: CborValue)
    ensures
        r@ == params_item(views(params@)),
{
    let mut out: Vec<CborValue> = Vec::new();
    let mut i: usize = 0;
    while i < params.len()
        invariant
            i <= params.len(),
            out@.len() == i,
            forall|j: int| 0 <= j < i ==> out@[j]@ == params@[j]@.item(),
        decreases params.len() - i,
    {
        out.push(params[i].to_cbor_value());
        i += 1;
    }
    assert(items_of(out@) =~= views(params@).map_values(param_encoder()));
    array_value(out)
}

/// Reads a list of key parameters from an array, stopping at the first
/// element that is not a key parameter.
pub fn params_from_cbor_value(v: &CborValue) -> (r: Result<Vec<KeyParam>, CborError>)
    ensures
        result_views(r) == params_from_item(v@),
{
    let a = match value_array(v) {
        Err(e) => { return Err(e); },
        Ok(a) => a,
    };
    let ghost items = items_of(a@);
    let mut out: Vec<KeyParam> = Vec::new();
    let mut i: usize = 0;
    assert(items.take(0) =~= Seq::<Item>::empty());
    assert(views(out@) =~= Seq::<KeyParamView>::empty());
    while i < a.len()
        invariant
            i <= a.len(),
            items == items_of(a@),
            array_of(v@) == Ok::<Seq<Item>, CborError>(items),
            decode_all(items.take(i as int), param_decoder()) == Ok::<
                Seq<KeyParamView>,
                CborError,
            >(views(out@)),
        decreases a.len() - i,
    {
        proof {
            lemma_decode_all_step(items, param_decoder(), i as int);
        }
        match KeyParam::from_cbor_value(&a[i]) {
            Err(e) => {
                proof {
                    lemma_decode_all_error(items, param_decoder(), i as int + 1);
                }
                return Err(e);
            },
            Ok(p) => {
                let ghost before = views(out@);
                out.push(p);
                assert(views(out@) =~= before.push(p@));
            },
        }
        i += 1;
    }
    assert(items.take(i as int) =~= items);
    Ok(out)
}

/// The parameters that hold of a key at one security level.
#[derive(Clone, Debug, PartialEq, Eq)]
pub struct KeyCharacteristics {
    pub security_level: SecurityLevel,
    pub authorizations: Vec<KeyParam>,
}

/// The content of a [`KeyCharacteristics`].
pub ghost struct KeyCharacteristicsView {
    pub security_level: SecurityLevel,
    pub authorizations: Seq<KeyParamView>,
}

impl View for KeyCharacteristics {
    type V = KeyCharacteristicsView;

    open spec fn view(&self) -> KeyCharacteristicsView {
        KeyCharacteristicsView {
            security_level: self.security_level,
            authorizations: views(self.authorizations@),
        }
    }
}

impl KeyCharacteristicsView {
    /// The CBOR form: the security level, then the array of parameters.
    pub open spec fn item(self) -> Item {
        Item::Array(
            seq![Item::Integer(self.security_level.code()), params_item(self.authorizations)],
        )
    }

    /// What [`KeyCharacteristics::from_cbor_value`] makes of an item.
    pub open spec fn from_item(item: Item) -> Result<KeyCharacteristicsView, CborError> {
        match tuple_of(item, 2) {
            Err(e) => Err(e),
            Ok(a) => match SecurityLevel::from_item(a[0]) {
                Err(e) => Err(e),
                Ok(security_level) => match params_from_item(a[1]) {
                    Err(e) => Err(e),
                    Ok(authorizations) => Ok(
                        KeyCharacteristicsView { security_level, authorizations },
                    ),
                },
            },
        }
    }

    /// Reading the CBOR form of characteristics gives them back.
    pub proof fn lemma_round_trip(self)
        ensures
            Self::from_item(self.item()) == Ok::<KeyCharacteristicsView, CborError>(self),
    {
        self.security_level.lemma_round_trip();
        lemma_params_round_trip(self.authorizations);
        let a = seq![Item::Integer(self.security_level.code()), params_item(self.authorizations)];
        assert(tuple_of(self.item(), 2) == Ok::<Seq<Item>, CborError>(a));
        assert(a[0] == Item::Integer(self.security_level.code()));
        assert(a[1] == params_item(self.authorizations));
    }
}

impl KeyCharacteristics {
    /// A copy of these characteristics.
    pub fn duplicate(&self) -> (r: KeyCharacteristics)
        ensures
            r@ == self@,
    {
        KeyCharacteristics {
            security_level: self.security_level,
            authorizations: duplicate_params(&self.authorizations),
        }
    }

    /// Writes the characteristics as the array of level and parameters.
    pub fn to_cbor_value(&self) -> (r: CborValue)
        ensures
            r@ == self@.item(),
    {
        let mut a: Vec<CborValue> = Vec::new();
        a.push(self.security_level.to_cbor_value());
        a.push(params_to_cbor_value(&self.authorizations));
        assert(items_of(a@) =~= seq![
            Item::Integer(self@.security_level.code()),
            params_item(self@.authorizations),
        ]);
        array_value(a)
    }

    /// Reads characteristics from the array of level and parameters.
    pub fn from_cbor_value(v: &CborValue) -> (r: Result<KeyCharacteristics, CborError>)
        ensures
            result_view(r) == KeyCharacteristicsView::from_item(v@),
    {
        let a = match value_tuple(v, 2) {
            Err(e) => { return Err(e); },
            Ok(a) => a,
        };
        assert(items_of(a@)[0] == a@[0]@);
        assert(items_of(a@)[1] == a@[1]@);
        let security_level = match SecurityLevel::from_cbor_value(&a[0]) {
            Err(e) => { return Err(e); },
            Ok(l) => l,
        };
        match params_from_cbor_value(&a[1]) {
            Err(e) => Err(e),
            Ok(authorizations) => Ok(KeyCharacteristics { security_level, authorizations }),
        }
    }
}

/// How one set of characteristics is written.
pub open spec fn characteristics_encoder() -> spec_fn(KeyCharacteristicsView) -> Item {
    |c: KeyCharacteristicsView| c.item()
}

/// How one set of characteristics is read.
pub open spec fn characteristics_decoder() -> spec_fn(Item) -> Result<
    KeyCharacteristicsView,
    CborError,
> {
    |item: Item| KeyCharacteristicsView::from_item(item)
}

/// The CBOR form of a list of characteristics: the array of their forms.
pub open spec fn characteristics_item(chars: Seq<KeyCharacteristicsView>) -> Item {
    Item::Array(chars.map_values(characteristics_encoder()))
}

/// What [`characteristics_from_cbor_value`] makes of an item.
pub open spec fn characteristics_from_item(item: Item) -> Result<
    Seq<KeyCharacteristicsView>,
    CborError,
> {
    match array_of(item) {
        Err(e) => Err(e),
        Ok(a) => decode_all(a, characteristics_decoder()),
    }
}

/// Reading the CBOR form of a list of characteristics gives the list back.
pub proof fn lemma_characteristics_round_trip(chars: Seq<KeyCharacteristicsView>)
    ensures
        characteristics_from_item(characteristics_item(chars)) == Ok::<
            Seq<KeyCharacteristicsView>,
            CborError,
        >(chars),
{
    assert forall|c: KeyCharacteristicsView| #[trigger]
        characteristics_decoder()(characteristics_encoder()(c)) == Ok::<
            KeyCharacteristicsView,
            CborError,
        >(c) by {
        c.lemma_round_trip();
    }
    lemma_decode_all_round_trip(chars, characteristics_encoder(), characteristics_decoder());
}

/// Copies a list of characteristics.
pub fn duplicate_characteristics(chars: &Vec<KeyCharacteristics>) -> (r: Vec<KeyCharacteristics>)
    ensures
        views(r@) == views(chars@),
{
    let mut out: Vec<KeyCharacteristics> = Vec::new();
    let mut i: usize = 0;
    while i < chars.len()
        invariant
            i <= chars.len(),
            out@.len() == i,
            forall|j: int| 0 <= j < i ==> out@[j]@ == chars@[j]@,
        decreases chars.len() - i,
    {
        out.push(chars[i].duplicate());
        i += 1;
    }
    assert(views(out@) =~= views(chars@));
    out
}

/// Writes a list of characteristics as an array.
pub fn characteristics_to_cbor_value(chars: &Vec<KeyCharacteristics>) -> (r: CborValue)
    ensures
        r@ == characteristics_item(views(chars@)),
{
    let mut out: Vec<CborValue> = Vec::new();
    let mut i: usize = 0;
    while i < chars.len()
        invariant
            i <= chars.len(),
            out@.len() == i,
            forall|j: int| 0 <= j < i ==> out@[j]@ == chars@[j]@.item(),
        decreases chars.len() - i,
    {
        out.push(chars[i].to_cbor_value());
        i += 1;
    }
    assert(items_of(out@) =~= views(chars@).map_values(characteristics_encoder()));
    array_value(out)
}

/// Reads a list of characteristics from an array, stopping at the first
/// element that is not one.
pub fn characteristics_from_cbor_value(v: &CborValue) -> (r: Result<
    Vec<KeyCharacteristics>,
    CborError,
>)
    ensures
        result_views(r) == characteristics_from_item(v@),
{
    let a = match value_array(v) {
        Err(e) => { return Err(e); },
        Ok(a) => a,
    };
    let ghost items = items_of(a@);
    let mut out: Vec<KeyCharacteristics> = Vec::new();
    let mut i: usize = 0;
    assert(items.take(0) =~= Seq::<Item>::empty());
    assert(views(out@) =~= Seq::<KeyCharacteristicsView>::empty());
    while i < a.len()
        invariant
            i <= a.len(),
            items == items_of(a@),
            array_of(v@) == Ok::<Seq<Item>, CborError>(items),
            decode_all(items.take(i as int), characteristics_decoder()) == Ok::<
                Seq<KeyCharacteristicsView>,
                CborError,
            >(views(out@)),
        decreases a.len() - i,
    {
        proof {
            lemma_decode_all_step(items, characteristics_decoder(), i as int);
        }
        match KeyCharacteristics::from_cbor_value(&a[i]) {
            Err(e) => {
                proof {
                    lemma_decode_all_error(items, characteristics_decoder(), i as int + 1);
                }
                return Err(e);
            },
            Ok(c) => {
                let ghost before = views(out@);
                out.push(c);
                assert(views(out@) =~= before.push(c@));
            },
        }
        i += 1;
    }
    assert(items.take(i as int) =~= items);
    Ok(out)
}

} // verus!
