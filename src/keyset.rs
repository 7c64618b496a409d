use vstd::prelude::*;
use std::sync::Arc;
use crate::error::ClientError;

verus! {

/// A lower-case hexadecimal digit.
pub open spec fn is_hex_digit(c: char) -> bool {
    ('0' <= c && c <= '9') || ('a' <= c && c <= 'f')
}

/// The textual form of a keyset id: the version `00` and seven bytes in hexadecimal.
pub open spec fn is_keyset_id_text(s: Seq<char>) -> bool {
    s.len() == 16 && s[0] == '0' && s[1] == '0' && forall|i: int|
        2 <= i < 16 ==> is_hex_digit(#[trigger] s[i])
}

/// The identifier of a keyset.
#[derive(Debug)]
pub struct Id {
    text: String,
}

impl Id {
    pub closed spec fn text(&self) -> Seq<char> {
        self.text@
    }

    pub closed spec fn wf(&self) -> bool {
        is_keyset_id_text(self.text@)
    }

    /// Reads a keyset id from its textual form.
    pub fn new(id: String) -> (r: Result<Id, ClientError>)
        ensures
            is_keyset_id_text(id@) ==> (r matches Ok(k) && k.text() == id@ && k.wf()),
            !is_keyset_id_text(id@) ==> r matches Err(ClientError::InvalidKeysetId),
    {
        let n = id.as_str().unicode_len();
        if n != 16 {
            return Err(ClientError::InvalidKeysetId);
        }
        if id.as_str().get_char(0) != '0' || id.as_str().get_char(1) != '0' {
            return Err(ClientError::InvalidKeysetId);
        }
        let mut i: usize = 2;
        while i < 16
            invariant
                2 <= i <= 16,
                id@.len() == 16,
                forall|j: int| 2 <= j < i ==> is_hex_digit(#[trigger] id@[j]),
            decreases 16 - i,
        {
            let c = id.as_str().get_char(i);
            if !(('0' <= c && c <= '9') || ('a' <= c && c <= 'f')) {
                return Err(ClientError::InvalidKeysetId);
            }
            i = i + 1;
        }
        Ok(Id { text: id })
    }

    /// The textual form of the id.
    pub fn as_string(&self) -> (r: String)
        ensures
            r@ == self.text(),
    {
        self.text.clone()
    }

    pub fn duplicate(&self) -> (r: Id)
        ensures
            r == *self,
    {
        Id { text: self.text.clone() }
    }
}

/// The public keys of a keyset, by the amount that each signs for: pairs of an amount and a
/// key in its textual form, amounts strictly ascending.
#[derive(Debug)]
pub struct Keys {
    entries: Vec<(u64, String)>,
}

pub open spec fn ascending_amounts(s: Seq<(u64, String)>) -> bool {
    forall|i: int, j: int| 0 <= i < j < s.len() ==> s[i].0 < s[j].0
}

impl Keys {
    pub closed spec fn entries(&self) -> Seq<(u64, String)> {
        self.entries@
    }

    /// Keys from pairs of amount and key; `None` unless the amounts strictly ascend.
    pub fn new(entries: Vec<(u64, String)>) -> (r: Option<Keys>)
        ensures
            ascending_amounts(entries@) ==> (r matches Some(k) && k.entries() == entries@),
            !ascending_amounts(entries@) ==> r is None,
    {
        let mut i: usize = 1;
        while i < entries.len()
            invariant
                1 <= i,
                i <= entries@.len() || entries@.len() == 0,
                forall|a: int, b: int| 0 <= a < b < i && b < entries@.len() ==> entries@[a].0
                    < entries@[b].0,
            decreases entries.len() - i,
        {
            if entries[i - 1].0 >= entries[i].0 {
                return None;
            }
            assert forall|a: int, b: int| 0 <= a < b < i + 1 && b < entries@.len() implies entries@[a].0
                < entries@[b].0 by {
                if b == i && a < i - 1 {
                    assert(entries@[a].0 < entries@[i - 1].0);
                }
            }
            i = i + 1;
        }
        Some(Keys { entries })
    }

    /// The amounts and keys, amounts ascending.
    pub fn entries_vec(&self) -> (r: Vec<(u64, String)>)
        ensures
            r@.len() == self.entries().len(),
            forall|i: int| 0 <= i < r@.len() ==> #[trigger] r@[i].0 == self.entries()[i].0
                && r@[i].1@ == self.entries()[i].1@,
    {
        let mut out: Vec<(u64, String)> = Vec::new();
        let mut i: usize = 0;
        while i < self.entries.len()
            invariant
                i <= self.entries@.len(),
                out@.len() == i,
                forall|j: int| 0 <= j < i ==> #[trigger] out@[j].0 == self.entries@[j].0
                    && out@[j].1@ == self.entries@[j].1@,
            decreases self.entries.len() - i,
        {
            out.push((self.entries[i].0, self.entries[i].1.clone()));
            i = i + 1;
        }
        out
    }

    pub fn duplicate(&self) -> (r: Keys)
        ensures
            r.entries().len() == self.entries().len(),
            forall|i: int| 0 <= i < r.entries().len() ==> #[trigger] r.entries()[i].0
                == self.entries()[i].0 && r.entries()[i].1@ == self.entries()[i].1@,
    {
        Keys { entries: self.entries_vec() }
    }
}

/// A keyset: its id and its keys.
#[derive(Debug)]
pub struct KeySet {
    id: Id,
    keys: Keys,
}

impl KeySet {
    pub closed spec fn id_view(&self) -> Id {
        self.id
    }

    pub closed spec fn keys_view(&self) -> Keys {
        self.keys
    }

    pub fn new(id: Arc<Id>, keys: Arc<Keys>) -> (r: KeySet)
        ensures
            r.id_view() == *id,
            r.keys_view().entries().len() == keys.entries().len(),
            forall|i: int| 0 <= i < keys.entries().len() ==> #[trigger] r.keys_view().entries()[i].0
                == keys.entries()[i].0 && r.keys_view().entries()[i].1@ == keys.entries()[i].1@,
    {
        KeySet { id: (*id).duplicate(), keys: (*keys).duplicate() }
    }

    pub fn id(&self) -> (r: Arc<Id>)
        ensures
            *r == self.id_view(),
    {
        Arc::new(self.id.duplicate())
    }

    pub fn keys(&self) -> (r: Arc<Keys>)
        ensures
            r.entries().len() == self.keys_view().entries().len(),
            forall|i: int| 0 <= i < r.entries().len() ==> #[trigger] r.entries()[i].0
                == self.keys_view().entries()[i].0 && r.entries()[i].1@
                == self.keys_view().entries()[i].1@,
    {
        Arc::new(self.keys.duplicate())
    }
}

/// The ids of the keysets that a mint knows.
#[derive(Debug)]
pub struct KeySetResponse {
    keysets: Vec<Id>,
}

impl KeySetResponse {
    pub closed spec fn ids(&self) -> Seq<Id> {
        self.keysets@
    }

    pub fn new(keyset_ids: Vec<Arc<Id>>) -> (r: KeySetResponse)
        ensures
            r.ids().len() == keyset_ids@.len(),
            forall|i: int| 0 <= i < keyset_ids@.len() ==> #[trigger] r.ids()[i] == *keyset_ids@[i],
    {
        let mut keysets: Vec<Id> = Vec::new();
        let mut i: usize = 0;
        while i < keyset_ids.len()
            invariant
                i <= keyset_ids@.len(),
                keysets@.len() == i,
                forall|j: int| 0 <= j < i ==> #[trigger] keysets@[j] == *keyset_ids@[j],
            decreases keyset_ids.len() - i,
        {
            keysets.push(keyset_ids[i].duplicate());
            i = i + 1;
        }
        KeySetResponse { keysets }
    }

    pub fn keyset_ids(&self) -> (r: Vec<Arc<Id>>)
        ensures
            r@.len() == self.ids().len(),
            forall|i: int| 0 <= i < r@.len() ==> *#[trigger] r@[i] == self.ids()[i],
    {
        let mut out: Vec<Arc<Id>> = Vec::new();
        let mut i: usize = 0;
        while i < self.keysets.len()
            invariant
                i <= self.keysets@.len(),
                out@.len() == i,
                forall|j: int| 0 <= j < i ==> *#[trigger] out@[j] == self.keysets@[j],
            decreases self.keysets.len() - i,
        {
            out.push(Arc::new(self.keysets[i].duplicate()));
            i = i + 1;
        }
        out
    }
}

} // verus!
