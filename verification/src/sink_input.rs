//! The raw description of a capture target, as one enumeration of the audio
//! server reports it.

use vstd::prelude::*;

verus! {

/// One entry of the free-form metadata of a sink input.
#[derive(Debug)]
pub struct Property {
    pub key: String,
    pub value: String,
}

/// The audio output of one application at one moment. The index is only good
/// until the application opens its output anew.
#[derive(Debug)]
pub struct SinkInput {
    /// The name the audio server shows the sink input under.
    pub name: String,
    /// The index the audio server knows the sink input by.
    pub index: u32,
    /// The index of the sink that the sink input plays to.
    pub sink: u32,
    /// The volume as the bits of a single-precision number, where 1.0 is the
    /// server's normal volume.
    pub volume: u32,
    /// The metadata of the sink input, in the order the server lists it.
    pub props: Vec<Property>,
}

/// What a sink input holds, as plain values.
pub struct SinkInputView {
    pub name: Seq<char>,
    pub index: u32,
    pub sink: u32,
    pub volume: u32,
    pub props: Seq<(Seq<char>, Seq<char>)>,
}

/// The entries of a metadata list as pairs of key and value.
pub open spec fn entries(props: Seq<Property>) -> Seq<(Seq<char>, Seq<char>)> {
    props.map_values(|p: Property| (p.key@, p.value@))
}

/// The value of the first entry with the given key.
pub open spec fn lookup(props: Seq<(Seq<char>, Seq<char>)>, key: Seq<char>) -> Option<Seq<char>>
    decreases props.len(),
{
    if props.len() == 0 {
        None
    } else if props[0].0 == key {
        Some(props[0].1)
    } else {
        lookup(props.drop_first(), key)
    }
}

impl Clone for Property {
    fn clone(&self) -> (copy: Self)
        ensures
            copy == *self,
    {
        Property { key: self.key.clone(), value: self.value.clone() }
    }
}

impl View for SinkInput {
    type V = SinkInputView;

    open spec fn view(&self) -> SinkInputView {
        SinkInputView {
            name: self.name@,
            index: self.index,
            sink: self.sink,
            volume: self.volume,
            props: entries(self.props@),
        }
    }
}

impl Clone for SinkInput {
    fn clone(&self) -> (copy: Self)
        ensures
            copy@ == self@,
    {
        let props = self.props.clone();
        proof {
            assert forall|i: int| 0 <= i < props.len() implies props[i] == self.props[i] by {
                assert(cloned::<Property>(self.props[i], props[i]));
            }
            assert(entries(props@) =~= entries(self.props@));
        }
        SinkInput {
            name: self.name.clone(),
            index: self.index,
            sink: self.sink,
            volume: self.volume,
            props,
        }
    }
}

impl SinkInput {
    /// Looks a metadata value up by its key. Where a key stands twice, the
    /// first entry counts.
    pub fn get_str(&self, key: &str) -> (value: Option<String>)
        ensures
            value is Some == lookup(self@.props, key@) is Some,
            value matches Some(v) ==> v@ == lookup(self@.props, key@)->0,
    {
        let wanted = key.to_owned();
        let mut i: usize = 0;
        proof {
            assert(self@.props.skip(0) == self@.props);
        }
        while i < self.props.len()
            invariant
                i <= self.props.len(),
                wanted@ == key@,
                lookup(self@.props, key@) == lookup(self@.props.skip(i as int), key@),
            decreases self.props.len() - i,
        {
            proof {
                let rest = self@.props.skip(i as int);
                assert(rest[0] == (self.props@[i as int].key@, self.props@[i as int].value@));
                assert(rest.drop_first() == self@.props.skip(i + 1));
            }
            if self.props[i].key == wanted {
                return Some(self.props[i].value.clone());
            }
            i = i + 1;
        }
        None
    }
}

} // verus!
