//! A minimal custom-resource object — a named object whose wire shape is
//! the JSON document `{"name":"..."}` — together with its list form
//! `{"resourceVersion":"...","items":[...]}`. These are the concrete
//! resource kinds this crate ships for custom-resource handles built from
//! only a kind name, and they exercise the full codec interface, the list
//! form included (a delete-collection response resolves over it).

use vstd::prelude::*;

use crate::bytes::{
    bytes_clean, check_clean, find_byte, find_from, lemma_find_from_first, lemma_find_from_some,
    match_at, matches_at, push_all, subvec, QUOTE,
};
use crate::resource::KubeObject;
use crate::status::{str_end, str_end_vec};
use crate::Error;

verus! {

/// A named custom-resource object.
#[derive(Debug, PartialEq, Eq)]
pub struct CustomObject {
    /// The object's name.
    pub name: Vec<u8>,
}

/// The abstract value of a [`CustomObject`].
#[verifier::ext_equal]
pub struct CustomObjectView {
    /// The object's name.
    pub name: Seq<u8>,
}

impl View for CustomObject {
    type V = CustomObjectView;

    open spec fn view(&self) -> CustomObjectView {
        CustomObjectView { name: self.name@ }
    }
}

/// The bytes of `{"name":"`.
pub open spec fn name_prefix() -> Seq<u8> {
    seq![
        '{' as u8, '"' as u8, 'n' as u8, 'a' as u8, 'm' as u8, 'e' as u8, '"' as u8, ':' as u8,
        '"' as u8,
    ]
}

/// Builds the bytes of `{"name":"`.
pub fn name_prefix_vec() -> (v: Vec<u8>)
    ensures
        v@ == name_prefix(),
{
    let mut v: Vec<u8> = Vec::new();
    v.push('{' as u8);
    v.push('"' as u8);
    v.push('n' as u8);
    v.push('a' as u8);
    v.push('m' as u8);
    v.push('e' as u8);
    v.push('"' as u8);
    v.push(':' as u8);
    v.push('"' as u8);
    proof {
        assert(v@ =~= name_prefix());
    }
    v
}

impl KubeObject for CustomObject {
    /// Valid objects: a name that may stand unescaped in a JSON string.
    open spec fn obj_wf(v: CustomObjectView) -> bool {
        bytes_clean(v.name)
    }

    open spec fn encode_of(v: CustomObjectView) -> Seq<u8> {
        name_prefix() + v.name + str_end()
    }

    open spec fn decode_of(s: Seq<u8>) -> Option<CustomObjectView> {
        if s.len() < 11 {
            None
        } else if !matches_at(s, 0, name_prefix()) {
            None
        } else if !matches_at(s, s.len() - 2, str_end()) {
            None
        } else {
            let name = s.subrange(9, s.len() - 2);
            if bytes_clean(name) {
                Some(CustomObjectView { name })
            } else {
                None
            }
        }
    }

    fn encode(&self) -> (r: Result<Vec<u8>, Error>) {
        if !check_clean(self.name.as_slice()) {
            return Err(Error::SerializationError);
        }
        let mut v = name_prefix_vec();
        push_all(&mut v, self.name.as_slice());
        let e = str_end_vec();
        push_all(&mut v, e.as_slice());
        proof {
            assert(v@ =~= Self::encode_of(self@));
        }
        Ok(v)
    }

    fn decode(s: &[u8]) -> (r: Option<CustomObject>) {
        if s.len() < 11 {
            return None;
        }
        let p = name_prefix_vec();
        if !match_at(s, 0, p.as_slice()) {
            return None;
        }
        let e = str_end_vec();
        if !match_at(s, s.len() - 2, e.as_slice()) {
            return None;
        }
        let name = subvec(s, 9, s.len() - 2);
        if !check_clean(name.as_slice()) {
            return None;
        }
        Some(CustomObject { name })
    }

    proof fn lemma_decode_wf(s: Seq<u8>) {
    }

    proof fn lemma_round_trip(v: CustomObjectView) {
        let e = Self::encode_of(v);
        let n = v.name.len() as int;
        assert(name_prefix().len() == 9);
        assert(e.len() == 11 + n);
        assert(matches_at(e, 0, name_prefix())) by {
            assert(e.subrange(0, 9) =~= name_prefix());
        }
        assert(matches_at(e, e.len() - 2, str_end())) by {
            assert(e.subrange(e.len() - 2, e.len() as int) =~= str_end());
        }
        assert(e.subrange(9, e.len() - 2) =~= v.name);
        assert(Self::decode_of(e) matches Some(d) && d =~= v);
    }
}

/// A list of custom-resource objects plus the version marker of the
/// snapshot it was taken at. On the wire it is the JSON document
/// `{"resourceVersion":"...","items":[{"name":"..."},...]}`.
#[derive(Debug, PartialEq, Eq)]
pub struct CustomObjectList {
    /// The objects, in server order.
    pub items: Vec<CustomObject>,
    /// Version snapshot usable as a watch starting point.
    pub resource_version: Vec<u8>,
}

/// The abstract value of a [`CustomObjectList`].
#[verifier::ext_equal]
pub struct CustomObjectListView {
    /// The objects, in server order.
    pub items: Seq<CustomObjectView>,
    /// Version snapshot usable as a watch starting point.
    pub resource_version: Seq<u8>,
}

impl View for CustomObjectList {
    type V = CustomObjectListView;

    open spec fn view(&self) -> CustomObjectListView {
        CustomObjectListView {
            items: self.items@.map_values(|o: CustomObject| o@),
            resource_version: self.resource_version@,
        }
    }
}

/// The bytes of `{"resourceVersion":"`.
pub open spec fn list_prefix() -> Seq<u8> {
    seq![
        '{' as u8, '"' as u8, 'r' as u8, 'e' as u8, 's' as u8, 'o' as u8, 'u' as u8, 'r' as u8,
        'c' as u8, 'e' as u8, 'V' as u8, 'e' as u8, 'r' as u8, 's' as u8, 'i' as u8, 'o' as u8,
        'n' as u8, '"' as u8, ':' as u8, '"' as u8,
    ]
}

/// The bytes of `","items":[`.
pub open spec fn items_header() -> Seq<u8> {
    seq![
        '"' as u8, ',' as u8, '"' as u8, 'i' as u8, 't' as u8, 'e' as u8, 'm' as u8, 's' as u8,
        '"' as u8, ':' as u8, '[' as u8,
    ]
}

/// The bytes of the closing `]}`.
pub open spec fn list_end() -> Seq<u8> {
    seq![']' as u8, '}' as u8]
}

/// Builds the bytes of `{"resourceVersion":"`.
fn list_prefix_vec() -> (v: Vec<u8>)
    ensures
        v@ == list_prefix(),
{
    let mut v: Vec<u8> = Vec::new();
    v.push('{' as u8);
    v.push('"' as u8);
    v.push('r' as u8);
    v.push('e' as u8);
    v.push('s' as u8);
    v.push('o' as u8);
    v.push('u' as u8);
    v.push('r' as u8);
    v.push('c' as u8);
    v.push('e' as u8);
    v.push('V' as u8);
    v.push('e' as u8);
    v.push('r' as u8);
    v.push('s' as u8);
    v.push('i' as u8);
    v.push('o' as u8);
    v.push('n' as u8);
    v.push('"' as u8);
    v.push(':' as u8);
    v.push('"' as u8);
    proof {
        assert(v@ =~= list_prefix());
    }
    v
}

/// Builds the bytes of `","items":[`.
fn items_header_vec() -> (v: Vec<u8>)
    ensures
        v@ == items_header(),
{
    let mut v: Vec<u8> = Vec::new();
    v.push('"' as u8);
    v.push(',' as u8);
    v.push('"' as u8);
    v.push('i' as u8);
    v.push('t' as u8);
    v.push('e' as u8);
    v.push('m' as u8);
    v.push('s' as u8);
    v.push('"' as u8);
    v.push(':' as u8);
    v.push('[' as u8);
    proof {
        assert(v@ =~= items_header());
    }
    v
}

/// Builds the bytes of the closing `]}`.
fn list_end_vec() -> (v: Vec<u8>)
    ensures
        v@ == list_end(),
{
    let mut v: Vec<u8> = Vec::new();
    v.push(']' as u8);
    v.push('}' as u8);
    proof {
        assert(v@ =~= list_end());
    }
    v
}

/// Valid item sequences: every name may stand unescaped in JSON.
pub open spec fn items_wf(items: Seq<CustomObjectView>) -> bool {
    forall|i: int| 0 <= i < items.len() ==> bytes_clean(#[trigger] items[i].name)
}

/// The wire bytes of the comma-separated item sequence.
pub open spec fn items_encode(items: Seq<CustomObjectView>) -> Seq<u8>
    decreases items.len(),
{
    if items.len() == 0 {
        Seq::empty()
    } else if items.len() == 1 {
        <CustomObject as KubeObject>::encode_of(items[0])
    } else {
        <CustomObject as KubeObject>::encode_of(items[0]) + seq![',' as u8] + items_encode(
            items.drop_first(),
        )
    }
}

/// The item sequence a comma-separated items region decodes to, if any.
pub open spec fn items_decode(s: Seq<u8>) -> Option<Seq<CustomObjectView>>
    decreases s.len(),
    via items_decode_decreases
{
    if s.len() == 0 {
        Some(Seq::empty())
    } else if !matches_at(s, 0, name_prefix()) {
        None
    } else {
        match find_from(s, QUOTE, 9) {
            Option::None => None,
            Option::Some(q) => {
                let name = s.subrange(9, q);
                if !bytes_clean(name) {
                    None
                } else if s.len() < q + 2 {
                    None
                } else if s[q + 1] != '}' as u8 {
                    None
                } else if s.len() == q + 2 {
                    Some(seq![CustomObjectView { name }])
                } else if s[q + 2] != ',' as u8 {
                    None
                } else {
                    match items_decode(s.subrange(q + 3, s.len() as int)) {
                        Option::Some(tail) => Some(seq![CustomObjectView { name }] + tail),
                        Option::None => None,
                    }
                }
            },
        }
    }
}

#[via_fn]
proof fn items_decode_decreases(s: Seq<u8>) {
    lemma_find_from_some(s, QUOTE, 9);
}

/// Decoded item sequences are valid.
pub proof fn lemma_items_decode_wf(s: Seq<u8>)
    ensures
        items_decode(s) matches Some(items) ==> items_wf(items),
    decreases s.len(),
{
    if s.len() != 0 && matches_at(s, 0, name_prefix()) {
        lemma_find_from_some(s, QUOTE, 9);
        match find_from(s, QUOTE, 9) {
            Option::Some(q) => {
                if bytes_clean(s.subrange(9, q)) && s.len() > q + 2 && s[q + 1] == '}' as u8 && s[q
                    + 2] == ',' as u8 {
                    lemma_items_decode_wf(s.subrange(q + 3, s.len() as int));
                }
            },
            Option::None => {},
        }
    }
}

/// Decoding inverts encoding on valid item sequences.
pub proof fn lemma_items_round_trip(items: Seq<CustomObjectView>)
    requires
        items_wf(items),
    ensures
        items_decode(items_encode(items)) == Some(items),
    decreases items.len(),
{
    if items.len() == 0 {
        assert(items_decode(items_encode(items)) matches Some(d) && d =~= items);
    } else {
        let e = items_encode(items);
        let head = <CustomObject as KubeObject>::encode_of(items[0]);
        let n = items[0].name.len() as int;
        assert(head.len() == 11 + n);
        if items.len() == 1 {
            assert(matches_at(e, 0, name_prefix())) by {
                assert(e.subrange(0, 9) =~= name_prefix());
            }
            assert(find_from(e, QUOTE, 9) == Some(9 + n)) by {
                assert(forall|j: int| 9 <= j < 9 + n ==> e[j] == items[0].name[j - 9]);
                assert(e[9 + n] == QUOTE);
                lemma_find_from_first(e, QUOTE, 9, 9 + n);
            }
            assert(e.subrange(9, 9 + n) =~= items[0].name);
            assert(e[9 + n + 1] == '}' as u8);
            assert(items_decode(e) matches Some(d) && d =~= items) by {
                assert(CustomObjectView { name: items[0].name } =~= items[0]);
            }
        } else {
            let rest = items_encode(items.drop_first());
            assert(e == head + seq![',' as u8] + rest);
            assert(matches_at(e, 0, name_prefix())) by {
                assert(e.subrange(0, 9) =~= name_prefix());
            }
            assert(find_from(e, QUOTE, 9) == Some(9 + n)) by {
                assert(forall|j: int| 9 <= j < 9 + n ==> e[j] == items[0].name[j - 9]);
                assert(e[9 + n] == QUOTE);
                lemma_find_from_first(e, QUOTE, 9, 9 + n);
            }
            assert(e.subrange(9, 9 + n) =~= items[0].name);
            assert(e[9 + n + 1] == '}' as u8);
            assert(e.len() == head.len() + 1 + rest.len());
            assert(e[9 + n + 2] == ',' as u8);
            assert(e.subrange(9 + n + 3, e.len() as int) =~= rest);
            assert(items_wf(items.drop_first())) by {
                assert(forall|i: int|
                    0 <= i < items.drop_first().len() ==> items.drop_first()[i] == items[i + 1]);
            }
            lemma_items_round_trip(items.drop_first());
            assert(items_decode(e) matches Some(d) && d =~= items) by {
                assert(CustomObjectView { name: items[0].name } =~= items[0]);
                assert(seq![items[0]] + items.drop_first() =~= items);
            }
        }
    }
}

/// Encodes the items from index `i` on, comma-separated.
fn encode_items(items: &Vec<CustomObject>, i: usize) -> (r: Result<Vec<u8>, Error>)
    requires
        i <= items@.len(),
    ensures
        (r is Ok) <==> (forall|j: int|
            i <= j < items@.len() ==> bytes_clean(#[trigger] items@[j]@.name)),
        r matches Ok(b) ==> b@ == items_encode(
            items@.map_values(|o: CustomObject| o@).skip(i as int),
        ),
        r is Err ==> r == Err::<Vec<u8>, Error>(Error::SerializationError),
    decreases items@.len() - i,
{
    let ghost iv = items@.map_values(|o: CustomObject| o@);
    if i == items.len() {
        let b: Vec<u8> = Vec::new();
        proof {
            assert(iv.skip(i as int) =~= Seq::<CustomObjectView>::empty());
        }
        return Ok(b);
    }
    let mut b = match items[i].encode() {
        Ok(h) => h,
        Err(e) => {
            return Err(e);
        },
    };
    if i + 1 == items.len() {
        proof {
            assert(iv.skip(i as int) =~= seq![iv[i as int]]);
        }
        return Ok(b);
    }
    b.push(',' as u8);
    let mut tail = match encode_items(items, i + 1) {
        Ok(t) => t,
        Err(e) => {
            return Err(e);
        },
    };
    b.append(&mut tail);
    proof {
        assert(iv.skip(i as int).drop_first() =~= iv.skip(i as int + 1));
        assert(iv.skip(i as int)[0] == iv[i as int]);
        assert(b@ =~= items_encode(iv.skip(i as int)));
    }
    Ok(b)
}

/// Decodes a comma-separated items region.
fn decode_items(s: &[u8]) -> (r: Option<Vec<CustomObject>>)
    ensures
        match r {
            Some(v) => items_decode(s@) == Some(v@.map_values(|o: CustomObject| o@)),
            None => items_decode(s@) is None,
        },
    decreases s@.len(),
{
    if s.len() == 0 {
        let v: Vec<CustomObject> = Vec::new();
        proof {
            assert(v@.map_values(|o: CustomObject| o@) =~= Seq::<CustomObjectView>::empty());
        }
        return Some(v);
    }
    let p = name_prefix_vec();
    if !match_at(s, 0, p.as_slice()) {
        return None;
    }
    match find_byte(s, QUOTE, 9) {
        Option::None => None,
        Option::Some(q) => {
            proof {
                lemma_find_from_some(s@, QUOTE, 9);
            }
            let name = subvec(s, 9, q);
            if !check_clean(name.as_slice()) {
                return None;
            }
            if s.len() - q < 2 {
                proof {
                    assert(s@.len() < q + 2);
                }
                return None;
            }
            if s[q + 1] != '}' as u8 {
                return None;
            }
            let ghost n0 = name@;
            if s.len() - q == 2 {
                let mut v: Vec<CustomObject> = Vec::new();
                v.push(CustomObject { name });
                proof {
                    assert(v@.map_values(|o: CustomObject| o@) =~= seq![
                        CustomObjectView { name: n0 },
                    ]);
                }
                return Some(v);
            }
            if s[q + 2] != ',' as u8 {
                return None;
            }
            let rest = subvec(s, q + 3, s.len());
            match decode_items(rest.as_slice()) {
                Option::Some(tail) => {
                    let ghost tail0 = tail@;
                    let mut v: Vec<CustomObject> = Vec::new();
                    v.push(CustomObject { name });
                    let mut tail = tail;
                    v.append(&mut tail);
                    proof {
                        assert(v@.map_values(|o: CustomObject| o@) =~= seq![
                            CustomObjectView { name: n0 },
                        ] + tail0.map_values(|o: CustomObject| o@));
                    }
                    Some(v)
                },
                Option::None => None,
            }
        },
    }
}

impl KubeObject for CustomObjectList {
    /// Valid lists: an unescaped version marker and valid items.
    open spec fn obj_wf(v: CustomObjectListView) -> bool {
        &&& bytes_clean(v.resource_version)
        &&& items_wf(v.items)
    }

    open spec fn encode_of(v: CustomObjectListView) -> Seq<u8> {
        list_prefix() + v.resource_version + items_header() + items_encode(v.items) + list_end()
    }

    open spec fn decode_of(s: Seq<u8>) -> Option<CustomObjectListView> {
        if s.len() < 33 {
            None
        } else if !matches_at(s, 0, list_prefix()) {
            None
        } else {
            match find_from(s, QUOTE, 20) {
                Option::None => None,
                Option::Some(vq) => {
                    if !matches_at(s, vq, items_header()) {
                        None
                    } else if s.len() < vq + 13 {
                        None
                    } else if !matches_at(s, s.len() - 2, list_end()) {
                        None
                    } else {
                        let version = s.subrange(20, vq);
                        if !bytes_clean(version) {
                            None
                        } else {
                            match items_decode(s.subrange(vq + 11, s.len() - 2)) {
                                Option::Some(items) => Some(
                                    CustomObjectListView { items, resource_version: version },
                                ),
                                Option::None => None,
                            }
                        }
                    }
                },
            }
        }
    }

    fn encode(&self) -> (r: Result<Vec<u8>, Error>) {
        if !check_clean(self.resource_version.as_slice()) {
            return Err(Error::SerializationError);
        }
        let mut items_bytes = match encode_items(&self.items, 0) {
            Ok(b) => b,
            Err(e) => {
                proof {
                    assert forall|j: int|
                        0 <= j < self.items@.len() && items_wf(self@.items) implies bytes_clean(
                        #[trigger] self.items@[j]@.name,
                    ) by {
                        assert(self@.items[j] == self.items@[j]@);
                    }
                }
                return Err(e);
            },
        };
        let mut v = list_prefix_vec();
        push_all(&mut v, self.resource_version.as_slice());
        let h = items_header_vec();
        push_all(&mut v, h.as_slice());
        v.append(&mut items_bytes);
        let e = list_end_vec();
        push_all(&mut v, e.as_slice());
        proof {
            assert forall|j: int| 0 <= j < self@.items.len() implies bytes_clean(
                #[trigger] self@.items[j].name,
            ) by {
                assert(self@.items[j] == self.items@[j]@);
            }
            assert(self@.items =~= self.items@.map_values(|o: CustomObject| o@).skip(0));
            assert(v@ =~= Self::encode_of(self@));
        }
        Ok(v)
    }

    fn decode(s: &[u8]) -> (r: Option<CustomObjectList>) {
        if s.len() < 33 {
            return None;
        }
        let p = list_prefix_vec();
        if !match_at(s, 0, p.as_slice()) {
            return None;
        }
        match find_byte(s, QUOTE, 20) {
            Option::None => None,
            Option::Some(vq) => {
                proof {
                    lemma_find_from_some(s@, QUOTE, 20);
                }
                let h = items_header_vec();
                if !match_at(s, vq, h.as_slice()) {
                    return None;
                }
                if s.len() - vq < 13 {
                    proof {
                        assert(s@.len() < vq + 13);
                    }
                    return None;
                }
                let e = list_end_vec();
                if !match_at(s, s.len() - 2, e.as_slice()) {
                    return None;
                }
                let version = subvec(s, 20, vq);
                if !check_clean(version.as_slice()) {
                    return None;
                }
                let region = subvec(s, vq + 11, s.len() - 2);
                let ghost v0 = version@;
                match decode_items(region.as_slice()) {
                    Option::Some(items) => {
                        let r = CustomObjectList { items, resource_version: version };
                        proof {
                            assert(Self::decode_of(s@) matches Some(d) && d =~= r@);
                        }
                        Some(r)
                    },
                    Option::None => None,
                }
            },
        }
    }

    proof fn lemma_decode_wf(s: Seq<u8>) {
        if s.len() >= 33 && matches_at(s, 0, list_prefix()) {
            lemma_find_from_some(s, QUOTE, 20);
            match find_from(s, QUOTE, 20) {
                Option::Some(vq) => {
                    if matches_at(s, vq, items_header()) && s.len() >= vq + 13 && matches_at(
                        s,
                        s.len() - 2,
                        list_end(),
                    ) {
                        lemma_items_decode_wf(s.subrange(vq + 11, s.len() - 2));
                    }
                },
                Option::None => {},
            }
        }
    }

    proof fn lemma_round_trip(v: CustomObjectListView) {
        let e = Self::encode_of(v);
        let m = v.resource_version.len() as int;
        let body = items_encode(v.items);
        assert(list_prefix().len() == 20);
        assert(items_header().len() == 11);
        assert(e.len() == 33 + m + body.len());
        assert(matches_at(e, 0, list_prefix())) by {
            assert(e.subrange(0, 20) =~= list_prefix());
        }
        assert(find_from(e, QUOTE, 20) == Some(20 + m)) by {
            assert(forall|j: int| 20 <= j < 20 + m ==> e[j] == v.resource_version[j - 20]);
            assert(e[20 + m] == QUOTE);
            lemma_find_from_first(e, QUOTE, 20, 20 + m);
        }
        assert(matches_at(e, 20 + m, items_header())) by {
            assert(e.subrange(20 + m, 31 + m) =~= items_header());
        }
        assert(matches_at(e, e.len() - 2, list_end())) by {
            assert(e.subrange(e.len() - 2, e.len() as int) =~= list_end());
        }
        assert(e.subrange(20, 20 + m) =~= v.resource_version);
        assert(e.subrange(31 + m, e.len() - 2) =~= body);
        lemma_items_round_trip(v.items);
        assert(Self::decode_of(e) matches Some(d) && d =~= v);
    }
}

} // verus!
