//! Filtering and formatting of device hints for the enumeration listing.
//!
//! The audio subsystem is queried per device category and answers with
//! hints; only entries explicitly marked as playback are listed. Each listed
//! entry shows its name and its description, with every line break in the
//! description re-indented by a tab so the description reads as one block
//! under the name.

use vstd::prelude::*;
use vstd::seq_lib::*;

verus! {

/// The direction annotation a hint may carry.
#[derive(Clone, Copy, PartialEq, Eq, Structural, Debug)]
pub enum HintDirection {
    Playback,
    Capture,
}

/// One entry as the audio subsystem reports it: name and description may be
/// absent, as may the direction annotation.
#[derive(Clone, Debug)]
pub struct DeviceHint {
    pub name: Option<String>,
    pub desc: Option<String>,
    pub direction: Option<HintDirection>,
}

/// One listed endpoint: its name and its re-indented description.
#[derive(Clone, PartialEq, Eq, Debug)]
pub struct DeviceDescriptor {
    pub name: String,
    pub desc: String,
}

/// A hint is listed only when it is explicitly marked as playback.
pub open spec fn is_playback_spec(h: DeviceHint) -> bool {
    h.direction == Some(HintDirection::Playback)
}

/// Every playback-marked hint carries a name and a description.
pub open spec fn hints_wf(s: Seq<DeviceHint>) -> bool {
    forall|j: int|
        0 <= j < s.len() && is_playback_spec(#[trigger] s[j]) ==> s[j].name is Some
            && s[j].desc is Some
}

/// What one character of a description becomes: a line break gains a tab,
/// every other character stands as it is.
pub open spec fn expand_char(c: char) -> Seq<char> {
    if c == '\n' {
        seq!['\n', '\t']
    } else {
        seq![c]
    }
}

/// A description with every line break re-indented by a tab.
pub open spec fn reindent_spec(s: Seq<char>) -> Seq<char>
    decreases s.len(),
{
    if s.len() == 0 {
        Seq::empty()
    } else {
        expand_char(s[0]) + reindent_spec(s.drop_first())
    }
}

/// Re-indentation works character by character from either end.
proof fn lemma_reindent_push(s: Seq<char>, c: char)
    ensures
        reindent_spec(s.push(c)) == reindent_spec(s) + expand_char(c),
    decreases s.len(),
{
    if s.len() == 0 {
        assert(s.push(c).drop_first() =~= Seq::<char>::empty());
        assert(s.push(c)[0] == c);
        assert(reindent_spec(Seq::<char>::empty()) =~= Seq::<char>::empty());
        assert(reindent_spec(s.push(c)) =~= expand_char(c) + Seq::<char>::empty());
        assert(reindent_spec(s) =~= Seq::<char>::empty());
        assert(reindent_spec(s.push(c)) =~= reindent_spec(s) + expand_char(c));
    } else {
        assert(s.push(c).drop_first() =~= s.drop_first().push(c));
        lemma_reindent_push(s.drop_first(), c);
        assert(reindent_spec(s.push(c)) =~= reindent_spec(s) + expand_char(c));
    }
}

/// The name and description pair a descriptor shows.
pub open spec fn descriptor_view(d: DeviceDescriptor) -> (Seq<char>, Seq<char>) {
    (d.name@, d.desc@)
}

/// The pairs a sequence of descriptors shows, in order.
pub open spec fn descriptors_view(s: Seq<DeviceDescriptor>) -> Seq<(Seq<char>, Seq<char>)> {
    s.map_values(|d: DeviceDescriptor| descriptor_view(d))
}

/// The listing a sequence of hints produces: exactly its playback entries,
/// in order, each as its name beside its re-indented description.
pub open spec fn outputs_spec(s: Seq<DeviceHint>) -> Seq<(Seq<char>, Seq<char>)>
    decreases s.len(),
{
    if s.len() == 0 {
        Seq::empty()
    } else {
        let rest = outputs_spec(s.drop_last());
        if is_playback_spec(s.last()) {
            rest.push((s.last().name.unwrap()@, reindent_spec(s.last().desc.unwrap()@)))
        } else {
            rest
        }
    }
}

/// Re-indent a description: every line break is followed by a tab.
pub fn reindent(desc: &str) -> (r: String)
    ensures
        r@ == reindent_spec(desc@),
{
    let n = desc.unicode_len();
    let mut out = String::new();
    let mut i: usize = 0;
    while i < n
        invariant
            i <= n,
            n == desc@.len(),
            out@ == reindent_spec(desc@.take(i as int)),
        decreases n - i,
    {
        let c = desc.get_char(i);
        if c == '\n' {
            out.append("\n\t");
            proof {
                reveal_strlit("\n\t");
                assert("\n\t"@ =~= expand_char(desc@[i as int]));
            }
        } else {
            let piece = desc.substring_char(i, i + 1);
            out.append(piece);
            proof {
                assert(piece@ =~= expand_char(desc@[i as int]));
            }
        }
        proof {
            lemma_reindent_push(desc@.take(i as int), desc@[i as int]);
            assert(desc@.take(i as int + 1) =~= desc@.take(i as int).push(desc@[i as int]));
        }
        i = i + 1;
    }
    proof {
        assert(desc@.take(n as int) =~= desc@);
    }
    out
}

/// Build the listing for a batch of hints: keep exactly the entries marked
/// playback, in order, and pair each name with its re-indented description.
pub fn list_outputs(hints: &Vec<DeviceHint>) -> (r: Vec<DeviceDescriptor>)
    requires
        hints_wf(hints@),
    ensures
        descriptors_view(r@) == outputs_spec(hints@),
{
    let mut out: Vec<DeviceDescriptor> = Vec::new();
    let mut i: usize = 0;
    while i < hints.len()
        invariant
            i <= hints@.len(),
            hints_wf(hints@),
            descriptors_view(out@) == outputs_spec(hints@.take(i as int)),
        decreases hints@.len() - i,
    {
        let h = &hints[i];
        let playback = match h.direction {
            Some(HintDirection::Playback) => true,
            _ => false,
        };
        proof {
            assert(playback == is_playback_spec(hints@[i as int]));
        }
        if playback {
            let ghost before = out@;
            let name = h.name.as_ref().unwrap().clone();
            let desc = reindent(h.desc.as_ref().unwrap().as_str());
            let d = DeviceDescriptor { name, desc };
            out.push(d);
            proof {
                assert(descriptors_view(out@) =~~= descriptors_view(before).push(
                    descriptor_view(d),
                ));
            }
        }
        proof {
            assert(hints@.take(i as int + 1).drop_last() =~= hints@.take(i as int));
        }
        i = i + 1;
    }
    proof {
        assert(hints@.take(hints@.len() as int) =~= hints@);
    }
    out
}

} // verus!
