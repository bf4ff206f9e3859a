use vstd::prelude::*;

verus! {

/// What the snake shows of itself on the index route.
#[derive(Clone, Debug)]
pub struct Descriptor {
    pub apiversion: String,
    pub author: String,
    pub color: String,
    pub head: String,
    pub tail: String,
    pub version: String,
}

/// The snake's fixed descriptor.
pub fn info() -> (r: Descriptor)
    ensures
        r.apiversion@ == "1"@,
        r.author@ == ""@,
        r.color@ == "#888888"@,
        r.head@ == "default"@,
        r.tail@ == "default"@,
        r.version@ == "0.1.0"@,
{
    Descriptor {
        apiversion: "1".to_owned(),
        author: "".to_owned(),
        color: "#888888".to_owned(),
        head: "default".to_owned(),
        tail: "default".to_owned(),
        version: "0.1.0".to_owned(),
    }
}

impl Descriptor {
    /// The descriptor as key and value pairs, in the order of the wire format.
    pub fn entries(&self) -> (r: Vec<(String, String)>)
        ensures
            r@.len() == 6,
            r@[0].0@ == "apiversion"@ && r@[0].1@ == self.apiversion@,
            r@[1].0@ == "author"@ && r@[1].1@ == self.author@,
            r@[2].0@ == "color"@ && r@[2].1@ == self.color@,
            r@[3].0@ == "head"@ && r@[3].1@ == self.head@,
            r@[4].0@ == "tail"@ && r@[4].1@ == self.tail@,
            r@[5].0@ == "version"@ && r@[5].1@ == self.version@,
    {
        let mut r: Vec<(String, String)> = Vec::new();
        r.push(("apiversion".to_owned(), self.apiversion.clone()));
        r.push(("author".to_owned(), self.author.clone()));
        r.push(("color".to_owned(), self.color.clone()));
        r.push(("head".to_owned(), self.head.clone()));
        r.push(("tail".to_owned(), self.tail.clone()));
        r.push(("version".to_owned(), self.version.clone()));
        r
    }
}

} // verus!
