use vstd::prelude::*;
use vstd::string::*;

verus! {

/// A change to a guild sticker; settings left unset are not changed.
#[derive(Clone, Debug)]
pub struct EditSticker {
    pub name: Option<String>,
    pub description: Option<String>,
    pub tags: Option<String>,
}

impl Default for EditSticker {
    /// The change that sets nothing.
    fn default() -> (r: EditSticker)
        ensures
            r.name is None,
            r.description is None,
            r.tags is None,
    {
        EditSticker { name: None, description: None, tags: None }
    }
}

impl EditSticker {
    /// Sets the sticker's new name.
    pub fn name(self, name: &str) -> (r: EditSticker)
        ensures
            r.name matches Some(v) && v@ == name@,
            r == (EditSticker { name: r.name, ..self }),
    {
        EditSticker { name: Some(String::from_str(name)), ..self }
    }

    /// Sets the sticker's new description.
    pub fn desc(self, desc: &str) -> (r: EditSticker)
        ensures
            r.description matches Some(v) && v@ == desc@,
            r == (EditSticker { description: r.description, ..self }),
    {
        EditSticker { description: Some(String::from_str(desc)), ..self }
    }

    /// Sets the sticker's new autocomplete tags.
    pub fn tags(self, tags: &str) -> (r: EditSticker)
        ensures
            r.tags matches Some(v) && v@ == tags@,
            r == (EditSticker { tags: r.tags, ..self }),
    {
        EditSticker { tags: Some(String::from_str(tags)), ..self }
    }
}

} // verus!
