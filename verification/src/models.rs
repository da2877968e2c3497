//! The stored records: presets of tasks, task templates, known task names
//! and inbox entries.
use vstd::prelude::*;

verus! {

/// A task as a preset holds it.
#[derive(Debug)]
pub struct TaskTemplate {
    pub id: u64,
    pub name: String,
    pub planned_start: Option<String>,
    pub planned_end: Option<String>,
}

/// A named list of task templates that can be loaded into the task table.
#[derive(Debug)]
pub struct Preset {
    pub id: u64,
    pub name: String,
    pub tasks: Vec<TaskTemplate>,
}

/// A task name offered as a suggestion.
#[derive(Debug)]
pub struct KnownTask {
    pub id: u64,
    pub name: String,
}

/// An entry of the inbox as stored.
#[derive(Debug)]
pub struct InboxItem {
    pub id: u64,
    pub name: String,
}

/// A copy of an optional text.
pub fn copy_opt_string(s: &Option<String>) -> (r: Option<String>)
    ensures
        r == *s,
{
    match s {
        Some(t) => Some(t.clone()),
        None => None,
    }
}

impl TaskTemplate {
    /// A field-by-field copy.
    pub fn duplicate(&self) -> (r: TaskTemplate)
        ensures
            r == *self,
    {
        TaskTemplate {
            id: self.id,
            name: self.name.clone(),
            planned_start: copy_opt_string(&self.planned_start),
            planned_end: copy_opt_string(&self.planned_end),
        }
    }
}

/// A copy of a list of task templates.
pub fn duplicate_templates(v: &Vec<TaskTemplate>) -> (r: Vec<TaskTemplate>)
    ensures
        r@ == v@,
{
    let mut r: Vec<TaskTemplate> = Vec::new();
    let mut i: usize = 0;
    while i < v.len()
        invariant
            i <= v@.len(),
            r@ == v@.subrange(0, i as int),
        decreases v@.len() - i,
    {
        r.push(v[i].duplicate());
        assert(r@ =~= v@.subrange(0, i + 1));
        i = i + 1;
    }
    assert(r@ =~= v@);
    r
}

impl Preset {
    /// A field-by-field copy.
    pub fn duplicate(&self) -> (r: Preset)
        ensures
            r.id == self.id,
            r.name == self.name,
            r.tasks@ == self.tasks@,
    {
        Preset { id: self.id, name: self.name.clone(), tasks: duplicate_templates(&self.tasks) }
    }
}

impl KnownTask {
    /// A field-by-field copy.
    pub fn duplicate(&self) -> (r: KnownTask)
        ensures
            r == *self,
    {
        KnownTask { id: self.id, name: self.name.clone() }
    }
}

impl InboxItem {
    /// A field-by-field copy.
    pub fn duplicate(&self) -> (r: InboxItem)
        ensures
            r == *self,
    {
        InboxItem { id: self.id, name: self.name.clone() }
    }
}

} // verus!
