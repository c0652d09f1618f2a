//! Outbound message records for the message bus.
//!
//! A `Payload` is one value message relative to a source's topic prefix; a
//! `PublishRecord` is a fully addressed message, one per outbound publish.
//! Topics follow `<prefix>/<suffix>`.

use vstd::prelude::*;
use vstd::string::StringExecFns;

verus! {

/// One outbound value message, addressed relative to a source's topic
/// prefix.
#[derive(Clone, Debug, PartialEq, Eq)]
pub struct Payload {
    pub topic_suffix: String,
    pub payload: String,
}

/// One fully addressed outbound message.
#[derive(Clone, Debug, PartialEq, Eq)]
pub struct PublishRecord {
    pub topic: String,
    pub payload: String,
}

/// The full topic for a suffix under a prefix: `<prefix>/<suffix>`.
pub open spec fn spec_full_topic(prefix: Seq<char>, suffix: Seq<char>) -> Seq<char> {
    prefix + seq!['/'] + suffix
}

/// Join a topic prefix and suffix with a single slash.
pub fn full_topic(prefix: &str, suffix: &str) -> (r: String)
    ensures
        r@ == spec_full_topic(prefix@, suffix@),
{
    proof {
        reveal_strlit("/");
    }
    let mut out = String::from_str(prefix);
    out.append("/");
    out.append(suffix);
    out
}

impl Payload {
    /// Address this message under the given topic prefix.
    pub fn to_record(self, prefix: &str) -> (r: PublishRecord)
        ensures
            r.topic@ == spec_full_topic(prefix@, self.topic_suffix@),
            r.payload == self.payload,
    {
        let topic = full_topic(prefix, self.topic_suffix.as_str());
        PublishRecord { topic, payload: self.payload }
    }
}

} // verus!
