//! Topic namespace bridging: the transport addresses messages by
//! `"{prefix}/{topic}"` keys, while the dataflow runtime uses the flat
//! topic alone. Joining adds the prefix; stripping removes it.

use vstd::prelude::*;

verus! {

/// The byte `'/'` separating a namespace prefix from a topic.
pub const SEPARATOR: u8 = 47;

/// The transport key for a topic under a namespace prefix:
/// `prefix`, one `'/'`, then the topic.
pub open spec fn joined(prefix: Seq<u8>, topic: Seq<u8>) -> Seq<u8> {
    prefix + seq![SEPARATOR] + topic
}

/// Whether a transport key lies under a namespace prefix: it starts with
/// the prefix followed by `'/'`.
pub open spec fn under_prefix(prefix: Seq<u8>, key: Seq<u8>) -> bool {
    key.len() > prefix.len() && key.take(prefix.len() as int) == prefix && key[prefix.len() as int]
        == SEPARATOR
}

/// The flat topic a transport key carries: the key with the prefix and the
/// separator removed when it lies under the prefix, the whole key otherwise.
pub open spec fn stripped(prefix: Seq<u8>, key: Seq<u8>) -> Seq<u8> {
    if under_prefix(prefix, key) {
        key.skip(prefix.len() + 1 as int)
    } else {
        key
    }
}

/// Build the transport key `"{prefix}/{topic}"` for an outbound message.
pub fn join_key(prefix: &Vec<u8>, topic: &Vec<u8>) -> (key: Vec<u8>)
    ensures
        key@ == joined(prefix@, topic@),
{
    let mut key: Vec<u8> = Vec::new();
    let mut i: usize = 0;
    while i < prefix.len()
        invariant
            i <= prefix@.len(),
            key@ == prefix@.subrange(0, i as int),
        decreases prefix@.len() - i,
    {
        key.push(prefix[i]);
        i = i + 1;
    }
    key.push(SEPARATOR);
    let mut j: usize = 0;
    while j < topic.len()
        invariant
            j <= topic@.len(),
            key@ == prefix@ + seq![SEPARATOR] + topic@.subrange(0, j as int),
        decreases topic@.len() - j,
    {
        key.push(topic[j]);
        j = j + 1;
    }
    proof {
        assert(key@ =~= joined(prefix@, topic@));
    }
    key
}

/// Strip the namespace prefix from an inbound transport key, yielding the
/// flat topic; a key outside the namespace is kept whole.
pub fn strip_key(prefix: &Vec<u8>, key: &Vec<u8>) -> (topic: Vec<u8>)
    ensures
        topic@ == stripped(prefix@, key@),
{
    let plen = prefix.len();
    let mut under = key.len() > plen && key[plen] == SEPARATOR;
    if under {
        let mut i: usize = 0;
        while i < plen && under
            invariant
                i <= plen,
                plen == prefix@.len(),
                plen < key@.len(),
                key@[plen as int] == SEPARATOR,
                under ==> key@.subrange(0, i as int) == prefix@.subrange(0, i as int),
                !under ==> !under_prefix(prefix@, key@),
            decreases plen - i + if under {
                1int
            } else {
                0int
            },
        {
            if key[i] != prefix[i] {
                proof {
                    assert(key@.take(plen as int) != prefix@) by {
                        if key@.take(plen as int) == prefix@ {
                            assert(key@.take(plen as int)[i as int] == key@[i as int]);
                        }
                    }
                }
                under = false;
            } else {
                proof {
                    assert(key@.subrange(0, i + 1) =~= key@.subrange(0, i as int).push(
                        key@[i as int],
                    ));
                    assert(prefix@.subrange(0, i + 1) =~= prefix@.subrange(0, i as int).push(
                        prefix@[i as int],
                    ));
                }
                i = i + 1;
            }
        }
        proof {
            if under {
                assert(key@.take(plen as int) =~= prefix@);
                assert(under_prefix(prefix@, key@));
            }
        }
    }
    let start: usize = if under {
        plen + 1
    } else {
        0
    };
    let mut topic: Vec<u8> = Vec::new();
    let mut j: usize = start;
    while j < key.len()
        invariant
            start <= j <= key@.len(),
            topic@ == key@.subrange(start as int, j as int),
        decreases key@.len() - j,
    {
        topic.push(key[j]);
        j = j + 1;
    }
    proof {
        assert(topic@ =~= stripped(prefix@, key@));
    }
    topic
}

/// Namespace round trip: stripping a prefix from the key it was joined
/// onto gives back exactly the topic that was joined.
pub proof fn lemma_join_strip(prefix: Seq<u8>, topic: Seq<u8>)
    ensures
        stripped(prefix, joined(prefix, topic)) == topic,
{
    let key = joined(prefix, topic);
    assert(key.take(prefix.len() as int) =~= prefix);
    assert(key[prefix.len() as int] == SEPARATOR);
    assert(key.skip(prefix.len() + 1 as int) =~= topic);
}

} // verus!
