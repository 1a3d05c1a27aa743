//! A shader program that keeps what it is told, for a caller to read back.

use vstd::hash_map::StringHashMap;
use vstd::prelude::*;
use crate::command::UniformValue;
use crate::shader::shader_program::ShaderProgram;

verus! {

/// A shader program without a driver: it records whether it was bound and
/// the text of the last value of each uniform.
pub struct NullableShaderProgram {
    uniform_values: StringHashMap<String>,
    bound: bool,
}

/// What a `NullableShaderProgram` holds.
pub struct NullableShaderProgramView {
    /// The text of the last value set, by the name of the uniform.
    pub uniform_values: Map<Seq<char>, Seq<char>>,
    /// Whether the program was bound.
    pub bound: bool,
}

impl View for NullableShaderProgram {
    type V = NullableShaderProgramView;

    closed spec fn view(&self) -> NullableShaderProgramView {
        NullableShaderProgramView {
            uniform_values: self.uniform_values@.map_values(|text: String| text@),
            bound: self.bound,
        }
    }
}

/// The map that takes each name of `entries` to the text given with it; of
/// two entries with one name the later one counts.
pub open spec fn entries_map(entries: Seq<(String, String)>) -> Map<Seq<char>, Seq<char>>
    decreases entries.len(),
{
    if entries.len() == 0 {
        Map::empty()
    } else {
        entries_map(entries.drop_last()).insert(entries.last().0@, entries.last().1@)
    }
}

impl NullableShaderProgram {
    /// A program with the uniform values `uniform_values`, each a name and a
    /// text, that is bound or not as `bound` says.
    pub fn new(uniform_values: Vec<(String, String)>, bound: bool) -> (program: Self)
        ensures
            program@ == (NullableShaderProgramView {
                uniform_values: entries_map(uniform_values@),
                bound,
            }),
    {
        let mut values: StringHashMap<String> = StringHashMap::new();
        let mut i: usize = 0;
        assert(values@.map_values(|text: String| text@) =~= entries_map(
            uniform_values@.subrange(0, 0),
        ));
        while i < uniform_values.len()
            invariant
                i <= uniform_values@.len(),
                values@.map_values(|text: String| text@) == entries_map(
                    uniform_values@.subrange(0, i as int),
                ),
            decreases uniform_values@.len() - i,
        {
            let ghost before = values@;
            let name = uniform_values[i].0.clone();
            let text = uniform_values[i].1.clone();
            values.insert(name, text);
            proof {
                let taken = uniform_values@.subrange(0, i + 1);
                assert(taken.drop_last() =~= uniform_values@.subrange(0, i as int));
                assert(taken.last() == uniform_values@[i as int]);
                assert(before.insert(name@, text).map_values(|text: String| text@)
                    =~= before.map_values(|text: String| text@).insert(name@, text@));
            }
            i = i + 1;
        }
        assert(uniform_values@.subrange(0, i as int) =~= uniform_values@);
        NullableShaderProgram { uniform_values: values, bound }
    }

    /// Whether the program was bound.
    pub fn is_bound(&self) -> (bound: bool)
        ensures
            bound == self@.bound,
    {
        self.bound
    }

    /// The text of the last value that the uniform `name` was set to.
    pub fn uniform(&self, name: &str) -> (text: Option<String>)
        ensures
            match text {
                Some(t) => self@.uniform_values.contains_key(name@)
                    && self@.uniform_values[name@] == t@,
                None => !self@.uniform_values.contains_key(name@),
            },
    {
        match self.uniform_values.get(name) {
            Some(text) => Some(text.clone()),
            None => None,
        }
    }
}

impl ShaderProgram for NullableShaderProgram {
    /// Remembers that the program was bound.
    fn bind(&mut self)
        ensures
            final(self)@ == (NullableShaderProgramView { bound: true, ..old(self)@ }),
    {
        self.bound = true;
    }

    /// Keeps the text of `value` under `name`, in place of what was kept
    /// there.
    fn set_uniform(&mut self, name: String, value: UniformValue)
        ensures
            final(self)@ == (NullableShaderProgramView {
                uniform_values: old(self)@.uniform_values.insert(name@, value.text()),
                ..old(self)@
            }),
    {
        let ghost before = self.uniform_values@;
        let text = value.to_text();
        self.uniform_values.insert(name, text);
        assert(before.insert(name@, text).map_values(|text: String| text@)
            =~= before.map_values(|text: String| text@).insert(name@, text@));
    }
}

} // verus!
