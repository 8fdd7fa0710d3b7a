//! The text fields of a multipart form, as the service reads them.
use vstd::prelude::*;

verus! {

/// One named field of a form, with the texts sent under that name in order.
pub struct FormEntry {
    pub name: String,
    pub values: Vec<String>,
}

/// The text fields of a submitted form.
pub struct Form {
    pub entries: Vec<FormEntry>,
}

/// The first text sent under `name`: that of the first entry of that name,
/// where that entry has any text at all.
pub open spec fn first_text(entries: Seq<FormEntry>, name: Seq<char>) -> Option<Seq<char>>
    decreases entries.len(),
{
    if entries.len() == 0 {
        None
    } else if entries[0].name@ == name {
        if entries[0].values@.len() > 0 {
            Some(entries[0].values@[0]@)
        } else {
            None
        }
    } else {
        first_text(entries.drop_first(), name)
    }
}

/// The text read under a name is the first text of the first entry sent
/// under that name: entries under other names before it are passed over, an
/// entry under that name with no text gives nothing, and a name under which
/// nothing was sent gives nothing.
pub proof fn first_text_reads_the_first_entry_of_that_name(e: Seq<FormEntry>, name: Seq<char>)
    ensures
        e.len() > 0 && e[0].name@ == name && e[0].values@.len() > 0 ==> first_text(e, name)
            == Some(e[0].values@[0]@),
        e.len() > 0 && e[0].name@ == name && e[0].values@.len() == 0 ==> first_text(e, name)
            is None,
        e.len() > 0 && e[0].name@ != name ==> first_text(e, name) == first_text(
            e.drop_first(),
            name,
        ),
        (forall|i: int| 0 <= i < e.len() ==> (#[trigger] e[i]).name@ != name) ==> first_text(
            e,
            name,
        ) is None,
        first_text(e, name) matches Some(t) ==> exists|i: int|
            0 <= i < e.len() && (#[trigger] e[i]).name@ == name && e[i].values@.len() > 0
                && e[i].values@[0]@ == t && forall|j: int|
                0 <= j < i ==> (#[trigger] e[j]).name@ != name,
    decreases e.len(),
{
    if e.len() > 0 {
        first_text_reads_the_first_entry_of_that_name(e.drop_first(), name);
        if e[0].name@ != name {
            if forall|i: int| 0 <= i < e.len() ==> (#[trigger] e[i]).name@ != name {
                assert forall|i: int| 0 <= i < e.drop_first().len() implies (
                #[trigger] e.drop_first()[i]).name@ != name by {
                    assert(e.drop_first()[i] == e[i + 1]);
                }
            }
            if let Some(t) = first_text(e, name) {
                let i = choose|i: int|
                    0 <= i < e.drop_first().len() && (#[trigger] e.drop_first()[i]).name@ == name
                        && e.drop_first()[i].values@.len() > 0 && e.drop_first()[i].values@[0]@ == t
                        && forall|j: int| 0 <= j < i ==> (#[trigger] e.drop_first()[j]).name@ != name;
                assert(e[i + 1] == e.drop_first()[i]);
                assert forall|j: int| 0 <= j < i + 1 implies (#[trigger] e[j]).name@ != name by {
                    if j > 0 {
                        assert(e[j] == e.drop_first()[j - 1]);
                    }
                }
            }
        } else {
            if let Some(t) = first_text(e, name) {
                assert(e[0].name@ == name);
            }
        }
    }
}

impl Form {
    /// The first text sent under `name`, if any.
    pub fn text(&self, name: &str) -> (text: Option<String>)
        ensures
            text.deep_view() == first_text(self.entries@, name@),
    {
        let key = String::from_str(name);
        let mut i: usize = 0;
        assert(self.entries@.skip(0) =~= self.entries@);
        while i < self.entries.len()
            invariant
                0 <= i <= self.entries@.len(),
                key@ == name@,
                first_text(self.entries@, name@) == first_text(self.entries@.skip(i as int), name@),
            decreases self.entries@.len() - i,
        {
            let entry = &self.entries[i];
            assert(self.entries@.skip(i as int)[0] == *entry);
            assert(self.entries@.skip(i as int).drop_first() =~= self.entries@.skip(i + 1));
            if entry.name == key {
                if entry.values.len() > 0 {
                    return Some(entry.values[0].clone());
                } else {
                    return None;
                }
            }
            i = i + 1;
        }
        None
    }
}

} // verus!
