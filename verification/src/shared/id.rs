use vstd::prelude::*;

verus! {

/// The identifier that the user gives a resource; it stays the same between deployments.
pub struct Id(pub String);

impl Clone for Id {
    fn clone(&self) -> (r: Self)
        ensures
            r == *self,
    {
        Id(self.0.clone())
    }
}

impl Id {
    /// The identifier as a string.
    pub fn to_string(&self) -> (r: String)
        ensures
            r@ == self.0@,
    {
        self.0.clone()
    }

    /// The identifier of a resource that comes with the resource `id`: `id` followed by `suffix`.
    pub fn generate_id(id: &Id, suffix: &str) -> (r: Id)
        ensures
            r.0@ == id.0@ + suffix@,
    {
        Id(crate::text::concat2(id.0.as_str(), suffix))
    }

    /// The identifier of the `i`th resource of the kind `name` that comes with the resource `id`:
    /// `id`, then `name`, then the decimal digits of `i`.
    pub fn generate_numbered_id(id: &Id, name: &str, i: usize) -> (r: Id)
        ensures
            r.0@ == id.0@ + (name@ + crate::text::decimal(i as nat)),
    {
        let mut suffix = String::from_str(name);
        crate::text::push_decimal_usize(&mut suffix, i);
        let r = Self::generate_id(id, suffix.as_str());
        assert(r.0@ =~= id.0@ + (name@ + crate::text::decimal(i as nat)));
        r
    }

    /// The identifier of a resource that joins two resources: the first id followed by the second.
    pub fn combine_ids(first: &Id, second: &Id) -> (r: Id)
        ensures
            r.0@ == first.0@ + second.0@,
    {
        Id(crate::text::concat2(first.0.as_str(), second.0.as_str()))
    }

    /// The identifier of a resource that ties `id` to the resource `resource_id`: the two joined.
    pub fn combine_with_resource_id(id: &Id, resource_id: &Id) -> (r: Id)
        ensures
            r.0@ == id.0@ + resource_id.0@,
    {
        Id(crate::text::concat2(id.0.as_str(), resource_id.0.as_str()))
    }

    /// Whether two identifiers are the same.
    pub fn same_as(&self, other: &Id) -> (r: bool)
        ensures
            r == (self.0@ == other.0@),
    {
        crate::text::str_eq(self.0.as_str(), other.0.as_str())
    }
}

} // verus!
