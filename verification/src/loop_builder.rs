use vstd::prelude::*;

verus! {

/// Configuration for a processing loop, collected by a builder.
///
/// The library only assembles the configuration; the unverified runtime
/// layer reads the finished value when it creates the actual loop.
pub struct LoopBuilder {
    pub name: Option<String>,
    pub class: Option<String>,
    pub cpu_affinity: Option<Vec<u32>>,
    pub rt_priority: Option<i32>,
    pub properties: Vec<(String, String)>,
}

impl LoopBuilder {
    /// An empty configuration: nothing set, no properties.
    pub fn new() -> (r: Self)
        ensures
            r.name is None,
            r.class is None,
            r.cpu_affinity is None,
            r.rt_priority is None,
            r.properties@ == Seq::<(String, String)>::empty(),
    {
        LoopBuilder {
            name: None,
            class: None,
            cpu_affinity: None,
            rt_priority: None,
            properties: Vec::new(),
        }
    }

    /// Set the name of the loop.
    pub fn name(self, name: String) -> (r: Self)
        ensures
            r == (LoopBuilder { name: Some(name), ..self }),
    {
        LoopBuilder { name: Some(name), ..self }
    }

    /// Set the class of the loop, which affects its scheduling behavior.
    pub fn class(self, class: String) -> (r: Self)
        ensures
            r == (LoopBuilder { class: Some(class), ..self }),
    {
        LoopBuilder { class: Some(class), ..self }
    }

    /// Set the CPU cores the loop's thread may run on.
    pub fn cpu_affinity(self, cpu_ids: Vec<u32>) -> (r: Self)
        ensures
            r == (LoopBuilder { cpu_affinity: Some(cpu_ids), ..self }),
    {
        LoopBuilder { cpu_affinity: Some(cpu_ids), ..self }
    }

    /// Set the realtime priority for the loop.
    pub fn rt_priority(self, priority: i32) -> (r: Self)
        ensures
            r == (LoopBuilder { rt_priority: Some(priority), ..self }),
    {
        LoopBuilder { rt_priority: Some(priority), ..self }
    }

    /// Add a custom property to the loop, keeping those added before.
    pub fn property(self, key: String, value: String) -> (r: Self)
        ensures
            r.name == self.name,
            r.class == self.class,
            r.cpu_affinity == self.cpu_affinity,
            r.rt_priority == self.rt_priority,
            r.properties@ == self.properties@.push((key, value)),
    {
        let mut updated = self;
        updated.properties.push((key, value));
        updated
    }
}

impl Default for LoopBuilder {
    /// The empty configuration.
    fn default() -> (r: Self)
        ensures
            r.name is None,
            r.class is None,
            r.cpu_affinity is None,
            r.rt_priority is None,
            r.properties@ == Seq::<(String, String)>::empty(),
    {
        LoopBuilder::new()
    }
}

} // verus!
