//! Response descriptors: what a response is made of, written down as data.
//!
//! A descriptor is an ordered list of field specifications. Each names a
//! header, the field of the response that the header fills, and the kind of
//! value that the field holds. Decoding looks every header up by its name and
//! reads its value as the field's kind. It gives all the values, in the
//! descriptor's order, or the failure of the first field that cannot be had.

use hyper::header::HeaderValue;
use hyper::HeaderMap;
use vstd::prelude::*;
use vstd::string::*;
use crate::errors::{AzureError, Failure};
use crate::headers::{
    all_visible,
    ascii_text,
    header_fields,
    header_text,
    lookup,
    lower,
    HeaderLookup,
    Lookup,
};
use crate::lease::Identifier;
use crate::text::{count_of, is_identifier, parse_count};
use crate::time::Timestamp;

verus! {

/// The kinds of value that a field of a response can hold.
#[derive(Debug, Clone, Copy, PartialEq, Eq, Hash, Structural)]
pub enum FieldKind {
    /// The header's text as it is.
    Text,
    /// An instant, written as a date in the form of RFC 2822.
    Timestamp,
    /// An identifier.
    Identifier,
    /// A count, written in decimal digits.
    Count,
}

/// One entry of a descriptor.
#[derive(Debug, Clone, Copy, PartialEq, Eq)]
pub struct FieldSpec {
    /// The header's name on the wire.
    pub header: &'static str,
    /// The name of the field that the header fills.
    pub field: &'static str,
    /// The kind of value that the field holds.
    pub kind: FieldKind,
    /// Whether a response without the header is a failure.
    pub required: bool,
}

/// A `FieldSpec` as mathematical values.
pub struct Field {
    pub header: Seq<char>,
    pub field: Seq<char>,
    pub kind: FieldKind,
    pub required: bool,
}

impl View for FieldSpec {
    type V = Field;

    open spec fn view(&self) -> Field {
        Field { header: self.header@, field: self.field@, kind: self.kind, required: self.required }
    }
}

/// The value of one field of a decoded response.
#[derive(Debug, Clone, PartialEq, Eq)]
pub enum FieldValue {
    Text(String),
    Timestamp(Timestamp),
    Identifier(Identifier),
    Count(u64),
    /// The field is optional and the response does not carry its header.
    Absent,
}

/// A `FieldValue` as mathematical values.
pub enum Value {
    Text(Seq<char>),
    Timestamp(Timestamp),
    Identifier(Seq<char>),
    Count(u64),
    Absent,
}

impl View for FieldValue {
    type V = Value;

    open spec fn view(&self) -> Value {
        match self {
            FieldValue::Text(text) => Value::Text(text@),
            FieldValue::Timestamp(instant) => Value::Timestamp(*instant),
            FieldValue::Identifier(id) => Value::Identifier(id@),
            FieldValue::Count(count) => Value::Count(*count),
            FieldValue::Absent => Value::Absent,
        }
    }
}

/// The value that a header's text denotes when read as `kind`, or `None`
/// where the text is no value of that kind.
pub open spec fn extracted(kind: FieldKind, raw: Seq<char>) -> Option<Value> {
    match kind {
        FieldKind::Text => Some(Value::Text(raw)),
        FieldKind::Timestamp => match Timestamp::rfc2822(raw) {
            Some(instant) => Some(Value::Timestamp(instant)),
            None => None,
        },
        FieldKind::Identifier => if is_identifier(raw) {
            Some(Value::Identifier(raw))
        } else {
            None
        },
        FieldKind::Count => match count_of(raw) {
            Some(count) => Some(Value::Count(count)),
            None => None,
        },
    }
}

impl Field {
    /// The failure that reports the field's header as missing.
    pub open spec fn missing(self) -> Failure {
        Failure::HeaderNotFound { header: self.header, field: self.field }
    }

    /// The failure that reports the value of the field's header as malformed.
    pub open spec fn malformed(self, raw: Option<Seq<char>>) -> Failure {
        Failure::MalformedHeader { header: self.header, field: self.field, raw }
    }

    /// What becomes of the field once its header's text has been read as a
    /// value of its kind.
    pub open spec fn accepted(
        self,
        raw: Seq<char>,
        value: Option<Value>,
    ) -> Result<Value, Failure> {
        match value {
            Some(value) => Ok(value),
            None => Err(self.malformed(Some(raw))),
        }
    }

    /// What becomes of the field, given what the lookup of its header found.
    pub open spec fn outcome(self, found: Lookup) -> Result<Value, Failure> {
        match found {
            Lookup::Absent => if self.required {
                Err(self.missing())
            } else {
                Ok(Value::Absent)
            },
            Lookup::Unreadable => Err(self.malformed(None)),
            Lookup::Text(raw) => self.accepted(raw, extracted(self.kind, raw)),
        }
    }

    /// What becomes of the field in a response whose headers hold `fields`.
    pub open spec fn decoded(self, fields: Map<Seq<char>, Seq<u8>>) -> Result<Value, Failure> {
        self.outcome(lookup(fields, self.header))
    }

    /// Whether `value` is one that the field can hold: a value of the
    /// field's kind, or none at all where the field is optional.
    pub open spec fn holds(self, value: Value) -> bool {
        match value {
            Value::Text(_) => self.kind == FieldKind::Text,
            Value::Timestamp(_) => self.kind == FieldKind::Timestamp,
            Value::Identifier(_) => self.kind == FieldKind::Identifier,
            Value::Count(_) => self.kind == FieldKind::Count,
            Value::Absent => !self.required,
        }
    }
}

/// The entries of a descriptor as mathematical values.
pub open spec fn entries(descriptor: Seq<FieldSpec>) -> Seq<Field> {
    Seq::new(descriptor.len(), |i: int| descriptor[i]@)
}

/// A list of field values as mathematical values.
pub open spec fn values(list: Seq<FieldValue>) -> Seq<Value> {
    Seq::new(list.len(), |i: int| list[i]@)
}

/// What decoding gives for a descriptor and a response whose headers hold
/// `fields`: the values of all the fields in order, or the failure of the
/// first field that has one.
pub open spec fn decoded(
    descriptor: Seq<Field>,
    fields: Map<Seq<char>, Seq<u8>>,
) -> Result<Seq<Value>, Failure>
    decreases descriptor.len(),
{
    if descriptor.len() == 0 {
        Ok(Seq::empty())
    } else {
        match decoded(descriptor.drop_last(), fields) {
            Err(failure) => Err(failure),
            Ok(earlier) => match descriptor.last().decoded(fields) {
                Err(failure) => Err(failure),
                Ok(value) => Ok(earlier.push(value)),
            },
        }
    }
}

/// Whether a list of values is one that a descriptor can decode to: one
/// value for each field, each of them one that its field can hold.
pub open spec fn conforms(descriptor: Seq<Field>, list: Seq<Value>) -> bool {
    &&& list.len() == descriptor.len()
    &&& forall|i: int| 0 <= i < descriptor.len() ==> (#[trigger] descriptor[i]).holds(list[i])
}

/// Reads a header's text as a value of `kind`.
pub fn extract(kind: FieldKind, raw: &str) -> (value: Option<FieldValue>)
    ensures
        match value {
            Some(v) => extracted(kind, raw@) == Some(v@),
            None => extracted(kind, raw@) is None,
        },
{
    match kind {
        FieldKind::Text => Some(FieldValue::Text(String::from_str(raw))),
        FieldKind::Timestamp => match Timestamp::from_rfc2822(raw) {
            Some(instant) => Some(FieldValue::Timestamp(instant)),
            None => None,
        },
        FieldKind::Identifier => match Identifier::parse(raw) {
            Some(id) => Some(FieldValue::Identifier(id)),
            None => None,
        },
        FieldKind::Count => match parse_count(raw) {
            Some(count) => Some(FieldValue::Count(count)),
            None => None,
        },
    }
}

impl FieldValue {
    /// The text, if the value is one.
    pub fn text(self) -> (text: Option<String>)
        ensures
            match text {
                Some(t) => self@ == Value::Text(t@),
                None => !(self@ is Text),
            },
    {
        match self {
            FieldValue::Text(text) => Some(text),
            _ => None,
        }
    }

    /// The instant, if the value is one.
    pub fn timestamp(self) -> (instant: Option<Timestamp>)
        ensures
            match instant {
                Some(t) => self@ == Value::Timestamp(t),
                None => !(self@ is Timestamp),
            },
    {
        match self {
            FieldValue::Timestamp(instant) => Some(instant),
            _ => None,
        }
    }

    /// The identifier, if the value is one.
    pub fn identifier(self) -> (id: Option<Identifier>)
        ensures
            match id {
                Some(i) => self@ == Value::Identifier(i@),
                None => !(self@ is Identifier),
            },
    {
        match self {
            FieldValue::Identifier(id) => Some(id),
            _ => None,
        }
    }

    /// The count, if the value is one.
    pub fn count(self) -> (count: Option<u64>)
        ensures
            match count {
                Some(c) => self@ == Value::Count(c),
                None => !(self@ is Count),
            },
    {
        match self {
            FieldValue::Count(count) => Some(count),
            _ => None,
        }
    }
}

impl FieldSpec {
    /// The failure that reports the field's header as missing.
    pub fn missing(&self) -> (error: AzureError)
        ensures
            error@ == self@.missing(),
    {
        AzureError::HeaderNotFound {
            header: String::from_str(self.header),
            field: String::from_str(self.field),
        }
    }

    /// The failure that reports the value of the field's header as malformed.
    /// `raw` is the value, where it is text.
    pub fn malformed(&self, raw: Option<&str>) -> (error: AzureError)
        ensures
            error@ == self@.malformed(
                match raw {
                    Some(text) => Some(text@),
                    None => None,
                },
            ),
    {
        AzureError::MalformedHeader {
            header: String::from_str(self.header),
            field: String::from_str(self.field),
            raw: match raw {
                Some(text) => Some(String::from_str(text)),
                None => None,
            },
        }
    }

    /// Settles the field once its header's text `raw` has been read: the
    /// value if the text was one of the field's kind, else the failure that
    /// names the header, the field and the text.
    pub fn accept(
        &self,
        raw: &str,
        value: Option<FieldValue>,
    ) -> (result: Result<FieldValue, AzureError>)
        ensures
            match result {
                Ok(v) => value == Some(v),
                Err(e) => value is None && e@ == self@.malformed(Some(raw@)),
            },
    {
        match value {
            Some(value) => Ok(value),
            None => Err(self.malformed(Some(raw))),
        }
    }

    /// Settles the field, given what the lookup of its header found.
    pub fn interpret(&self, found: HeaderLookup<'_>) -> (result: Result<FieldValue, AzureError>)
        ensures
            match result {
                Ok(v) => self@.outcome(found@) == Ok::<Value, Failure>(v@),
                Err(e) => self@.outcome(found@) == Err::<Value, Failure>(e@),
            },
    {
        match found {
            HeaderLookup::Absent => {
                if self.required {
                    Err(self.missing())
                } else {
                    Ok(FieldValue::Absent)
                }
            },
            HeaderLookup::Unreadable => Err(self.malformed(None)),
            HeaderLookup::Text(raw) => self.accept(raw, extract(self.kind, raw)),
        }
    }

    /// Decodes the field from the headers of a response.
    pub fn decode(
        &self,
        headers: &HeaderMap<HeaderValue>,
    ) -> (result: Result<FieldValue, AzureError>)
        ensures
            match result {
                Ok(v) => self@.decoded(header_fields(*headers)) == Ok::<Value, Failure>(v@),
                Err(e) => self@.decoded(header_fields(*headers)) == Err::<Value, Failure>(e@),
            },
    {
        self.interpret(header_text(headers, self.header))
    }
}

/// A failure of an earlier field is the failure of the whole.
proof fn lemma_failure_stays(descriptor: Seq<Field>, fields: Map<Seq<char>, Seq<u8>>, k: int)
    requires
        0 <= k <= descriptor.len(),
        decoded(descriptor.take(k), fields) is Err,
    ensures
        decoded(descriptor, fields) == decoded(descriptor.take(k), fields),
    decreases descriptor.len() - k,
{
    if k == descriptor.len() {
        assert(descriptor.take(k) =~= descriptor);
    } else {
        assert(descriptor.take(k + 1).drop_last() =~= descriptor.take(k));
        lemma_failure_stays(descriptor, fields, k + 1);
    }
}

/// Decodes the headers of a response as a descriptor says: the values of all
/// its fields in order, or the failure of the first field that has one.
pub fn decode(
    descriptor: &[FieldSpec],
    headers: &HeaderMap<HeaderValue>,
) -> (result: Result<Vec<FieldValue>, AzureError>)
    ensures
        match result {
            Ok(list) => decoded(entries(descriptor@), header_fields(*headers)) == Ok::<
                Seq<Value>,
                Failure,
            >(values(list@)),
            Err(e) => decoded(entries(descriptor@), header_fields(*headers)) == Err::<
                Seq<Value>,
                Failure,
            >(e@),
        },
{
    let ghost all = entries(descriptor@);
    let ghost fields = header_fields(*headers);
    let mut list: Vec<FieldValue> = Vec::new();
    let mut i: usize = 0;
    assert(all.take(0) =~= Seq::<Field>::empty());
    assert(values(list@) =~= Seq::<Value>::empty());
    while i < descriptor.len()
        invariant
            i <= descriptor.len(),
            all == entries(descriptor@),
            fields == header_fields(*headers),
            decoded(all.take(i as int), fields) == Ok::<Seq<Value>, Failure>(values(list@)),
        decreases descriptor.len() - i,
    {
        let ghost earlier = values(list@);
        proof {
            assert(all.take(i + 1).drop_last() =~= all.take(i as int));
            assert(all.take(i + 1).last() == descriptor@[i as int]@);
        }
        match descriptor[i].decode(headers) {
            Ok(value) => {
                list.push(value);
                assert(values(list@) =~= earlier.push(value@));
            },
            Err(error) => {
                proof {
                    lemma_failure_stays(all, fields, i + 1);
                }
                return Err(error);
            },
        }
        i += 1;
    }
    assert(all.take(i as int) =~= all);
    Ok(list)
}

/// Decoding succeeds exactly if every field can be had, and then gives every
/// field's own value, in the descriptor's order: no field depends on another.
pub proof fn lemma_decoded_fieldwise(descriptor: Seq<Field>, fields: Map<Seq<char>, Seq<u8>>)
    ensures
        decoded(descriptor, fields) is Ok <==> forall|i: int|
            0 <= i < descriptor.len() ==> (#[trigger] descriptor[i]).decoded(fields) is Ok,
        decoded(descriptor, fields) matches Ok(list) ==> list.len() == descriptor.len()
            && forall|i: int|
            0 <= i < descriptor.len() ==> (#[trigger] descriptor[i]).decoded(fields) == Ok::<
                Value,
                Failure,
            >(list[i]),
    decreases descriptor.len(),
{
    if descriptor.len() > 0 {
        let front = descriptor.drop_last();
        lemma_decoded_fieldwise(front, fields);
        assert forall|i: int| 0 <= i < front.len() implies front[i] == descriptor[i] by {}
        if decoded(descriptor, fields) is Ok {
            let list = decoded(descriptor, fields)->Ok_0;
            assert forall|i: int| 0 <= i < descriptor.len() implies (
            #[trigger] descriptor[i]).decoded(fields) == Ok::<Value, Failure>(list[i]) by {
                if i < front.len() {
                    assert(front[i] == descriptor[i]);
                }
            }
        } else {
            if decoded(front, fields) is Ok {
                assert(descriptor.last().decoded(fields) is Err);
                assert(descriptor[descriptor.len() - 1] == descriptor.last());
            } else {
                let i = choose|i: int|
                    0 <= i < front.len() && !((#[trigger] front[i]).decoded(fields) is Ok);
                assert(front[i] == descriptor[i]);
            }
        }
    }
}

/// The values that decoding gives conform to the descriptor.
pub proof fn lemma_decoded_conforms(descriptor: Seq<Field>, fields: Map<Seq<char>, Seq<u8>>)
    ensures
        decoded(descriptor, fields) matches Ok(list) ==> conforms(descriptor, list),
{
    lemma_decoded_fieldwise(descriptor, fields);
    if decoded(descriptor, fields) is Ok {
        let list = decoded(descriptor, fields)->Ok_0;
        assert forall|i: int| 0 <= i < descriptor.len() implies (#[trigger] descriptor[i]).holds(
            list[i],
        ) by {
            assert(descriptor[i].decoded(fields) == Ok::<Value, Failure>(list[i]));
        }
    }
}

/// Decoding fails with the failure of the first field, in the descriptor's
/// order, that cannot be had.
pub proof fn lemma_first_failure(
    descriptor: Seq<Field>,
    fields: Map<Seq<char>, Seq<u8>>,
    k: int,
)
    requires
        0 <= k < descriptor.len(),
        forall|j: int| 0 <= j < k ==> (#[trigger] descriptor[j]).decoded(fields) is Ok,
        descriptor[k].decoded(fields) is Err,
    ensures
        decoded(descriptor, fields) == Err::<Seq<Value>, Failure>(
            descriptor[k].decoded(fields)->Err_0,
        ),
{
    let upto = descriptor.take(k + 1);
    assert(upto.drop_last() =~= descriptor.take(k));
    assert(upto.last() == descriptor[k]);
    lemma_decoded_fieldwise(descriptor.take(k), fields);
    assert forall|j: int| 0 <= j < k implies (#[trigger] descriptor.take(k)[j]).decoded(
        fields,
    ) is Ok by {
        assert(descriptor.take(k)[j] == descriptor[j]);
    }
    lemma_failure_stays(descriptor, fields, k + 1);
}

/// A failure of decoding is the failure of a field: of the first one, in the
/// descriptor's order, that cannot be had. So it reports a header as missing
/// or as malformed, and nothing else.
pub proof fn lemma_failure_has_cause(
    descriptor: Seq<Field>,
    fields: Map<Seq<char>, Seq<u8>>,
) -> (k: int)
    requires
        decoded(descriptor, fields) is Err,
    ensures
        0 <= k < descriptor.len(),
        forall|j: int| 0 <= j < k ==> (#[trigger] descriptor[j]).decoded(fields) is Ok,
        descriptor[k].decoded(fields) is Err,
        decoded(descriptor, fields) == Err::<Seq<Value>, Failure>(
            descriptor[k].decoded(fields)->Err_0,
        ),
        decoded(descriptor, fields)->Err_0 is HeaderNotFound || decoded(
            descriptor,
            fields,
        )->Err_0 is MalformedHeader,
{
    lemma_decoded_fieldwise(descriptor, fields);
    let n = choose|n: int|
        0 <= n < descriptor.len() && !((#[trigger] descriptor[n]).decoded(fields) is Ok);
    let k = lemma_earliest_failure(descriptor, fields, n);
    lemma_first_failure(descriptor, fields, k);
    k
}

/// The first field at or before `n` that cannot be had.
proof fn lemma_earliest_failure(
    descriptor: Seq<Field>,
    fields: Map<Seq<char>, Seq<u8>>,
    n: int,
) -> (k: int)
    requires
        0 <= n < descriptor.len(),
        descriptor[n].decoded(fields) is Err,
    ensures
        0 <= k <= n,
        descriptor[k].decoded(fields) is Err,
        forall|j: int| 0 <= j < k ==> (#[trigger] descriptor[j]).decoded(fields) is Ok,
    decreases n,
{
    if exists|j: int| 0 <= j < n && (#[trigger] descriptor[j]).decoded(fields) is Err {
        let j = choose|j: int| 0 <= j < n && (#[trigger] descriptor[j]).decoded(fields) is Err;
        lemma_earliest_failure(descriptor, fields, j)
    } else {
        n
    }
}

/// A response that carries every header of the descriptor, each with a value
/// of its field's kind, decodes, and every field holds what its own header's
/// text denotes.
pub proof fn lemma_complete_response_decodes(
    descriptor: Seq<Field>,
    fields: Map<Seq<char>, Seq<u8>>,
)
    requires
        forall|i: int|
            0 <= i < descriptor.len() ==> lookup(fields, (#[trigger] descriptor[i]).header) is Text,
        forall|i: int|
            0 <= i < descriptor.len() ==> extracted(
                (#[trigger] descriptor[i]).kind,
                lookup(fields, descriptor[i].header)->Text_0,
            ) is Some,
    ensures
        decoded(descriptor, fields) matches Ok(list) && list.len() == descriptor.len()
            && forall|i: int|
            0 <= i < descriptor.len() ==> Some(#[trigger] list[i]) == extracted(
                descriptor[i].kind,
                lookup(fields, descriptor[i].header)->Text_0,
            ),
{
    lemma_decoded_fieldwise(descriptor, fields);
    assert forall|i: int| 0 <= i < descriptor.len() implies (#[trigger] descriptor[i]).decoded(
        fields,
    ) is Ok by {
        assert(lookup(fields, descriptor[i].header) is Text);
        assert(extracted(descriptor[i].kind, lookup(fields, descriptor[i].header)->Text_0) is Some);
    }
    let list = decoded(descriptor, fields)->Ok_0;
    assert forall|i: int| 0 <= i < descriptor.len() implies Some(#[trigger] list[i]) == extracted(
        descriptor[i].kind,
        lookup(fields, descriptor[i].header)->Text_0,
    ) by {
        assert(descriptor[i].decoded(fields) == Ok::<Value, Failure>(list[i]));
        assert(lookup(fields, descriptor[i].header) is Text);
        assert(extracted(descriptor[i].kind, lookup(fields, descriptor[i].header)->Text_0) is Some);
    }
}

/// Taking the header of a required field out of a response that decodes
/// makes decoding fail, and the failure reports that header as missing. The
/// failure is the field's own, unless an earlier field reads the same header:
/// then it is that field's, which names the same header in its own spelling.
pub proof fn lemma_missing_required_header(
    descriptor: Seq<Field>,
    fields: Map<Seq<char>, Seq<u8>>,
    i: int,
)
    requires
        0 <= i < descriptor.len(),
        descriptor[i].required,
        decoded(descriptor, fields) is Ok,
    ensures
        decoded(descriptor, fields.remove(lower(descriptor[i].header))) matches Err(
            Failure::HeaderNotFound { header, field },
        ) && lower(header) == lower(descriptor[i].header),
        (forall|j: int|
            0 <= j < i ==> lower((#[trigger] descriptor[j]).header) != lower(descriptor[i].header))
            ==> decoded(descriptor, fields.remove(lower(descriptor[i].header))) == Err::<
            Seq<Value>,
            Failure,
        >(descriptor[i].missing()),
{
    let key = lower(descriptor[i].header);
    let without = fields.remove(key);
    lemma_decoded_fieldwise(descriptor, fields);
    assert(descriptor[i].decoded(without) == Err::<Value, Failure>(descriptor[i].missing()));
    let k = lemma_earliest_failure(descriptor, without, i);
    assert(descriptor[k].decoded(fields) is Ok);
    if lower(descriptor[k].header) != key {
        assert(lookup(without, descriptor[k].header) == lookup(fields, descriptor[k].header));
        assert(false);
    }
    assert(lookup(without, descriptor[k].header) is Absent);
    lemma_first_failure(descriptor, without, k);
}

/// Putting a text that is no value of a field's kind under that field's
/// header, in a response that decodes, makes decoding fail: the failure
/// reports the header as malformed and carries the text, and no value comes
/// out. So it is with a text that is no date under a header that is read as
/// an instant. The failure is the field's own, unless an earlier field reads
/// the same header. Fields that read other headers are had as before.
pub proof fn lemma_malformed_header(
    descriptor: Seq<Field>,
    fields: Map<Seq<char>, Seq<u8>>,
    i: int,
    bytes: Seq<u8>,
)
    requires
        0 <= i < descriptor.len(),
        decoded(descriptor, fields) is Ok,
        lookup(fields, descriptor[i].header) is Text,
        all_visible(bytes),
        extracted(descriptor[i].kind, ascii_text(bytes)) is None,
    ensures
        decoded(descriptor, fields.insert(lower(descriptor[i].header), bytes)) matches Err(
            Failure::MalformedHeader { header, field, raw },
        ) && lower(header) == lower(descriptor[i].header) && raw == Some(ascii_text(bytes)),
        (forall|j: int|
            0 <= j < i ==> lower((#[trigger] descriptor[j]).header) != lower(descriptor[i].header))
            ==> decoded(descriptor, fields.insert(lower(descriptor[i].header), bytes)) == Err::<
            Seq<Value>,
            Failure,
        >(descriptor[i].malformed(Some(ascii_text(bytes)))),
        forall|j: int|
            0 <= j < descriptor.len() && lower((#[trigger] descriptor[j]).header) != lower(
                descriptor[i].header,
            ) ==> descriptor[j].decoded(fields.insert(lower(descriptor[i].header), bytes))
                == descriptor[j].decoded(fields),
{
    let key = lower(descriptor[i].header);
    let changed = fields.insert(key, bytes);
    lemma_decoded_fieldwise(descriptor, fields);
    assert(lookup(changed, descriptor[i].header) == Lookup::Text(ascii_text(bytes)));
    assert(descriptor[i].decoded(changed) == Err::<Value, Failure>(
        descriptor[i].malformed(Some(ascii_text(bytes))),
    ));
    assert forall|j: int|
        0 <= j < descriptor.len() && lower((#[trigger] descriptor[j]).header)
            != key implies descriptor[j].decoded(changed) == descriptor[j].decoded(fields) by {
        assert(lookup(changed, descriptor[j].header) == lookup(fields, descriptor[j].header));
    }
    let k = lemma_earliest_failure(descriptor, changed, i);
    assert(descriptor[k].decoded(fields) is Ok);
    if lower(descriptor[k].header) != key {
        assert(lookup(changed, descriptor[k].header) == lookup(fields, descriptor[k].header));
        assert(false);
    }
    assert(lookup(fields, descriptor[k].header) !is Absent) by {
        assert(fields.contains_key(key));
    }
    assert(lookup(changed, descriptor[k].header) == Lookup::Text(ascii_text(bytes)));
    lemma_first_failure(descriptor, changed, k);
}

} // verus!
