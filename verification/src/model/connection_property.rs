use vstd::prelude::*;

verus! {

/// A connection-level property that customises query behaviour.
#[derive(Debug, Clone)]
pub struct ConnectionProperty {
    /// [Required] Name of the connection property to set.
    pub key: String,
    /// Value of the connection property.
    pub value: Option<String>,
}

impl Default for ConnectionProperty {
    /// An empty key and no value.
    fn default() -> (r: Self)
        ensures
            r.key@ == Seq::<char>::empty(),
            r.value is None,
    {
        ConnectionProperty { key: String::new(), value: None }
    }
}

} // verus!
