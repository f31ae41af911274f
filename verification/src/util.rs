//! The tests of a problem, from the files of its inputs and of its
//! references.

use std::collections::BTreeMap;
use vstd::prelude::*;
use vstd::utf8::encode_utf8;

verus! {

/// Where the name of the file begins in `path`: behind its last slash.
pub open spec fn name_start(path: Seq<u8>) -> int
    decreases path.len(),
{
    if path.len() == 0 {
        0
    } else if path.last() == 47u8 {
        path.len() as int
    } else {
        name_start(path.drop_last())
    }
}

/// The letter `byte` in lower case, if it is a letter of ASCII in upper
/// case, and `byte` itself if not.
pub open spec fn lower(byte: u8) -> u8 {
    if 65 <= byte <= 90 {
        (byte + 32) as u8
    } else {
        byte
    }
}

/// What a file is ordered by: the bytes of its name, which is what follows
/// the last slash of its path, with its letters in lower case.
pub open spec fn key_of(path: Seq<char>) -> Seq<u8> {
    let bytes = encode_utf8(path);
    bytes.skip(name_start(bytes)).map_values(|byte: u8| lower(byte))
}

/// Whether `a` comes before `b` or equals it, byte by byte, a shorter
/// sequence before the longer ones that begin with it.
pub open spec fn precedes(a: Seq<u8>, b: Seq<u8>) -> bool
    decreases a.len(),
{
    if a.len() == 0 {
        true
    } else if b.len() == 0 {
        false
    } else if a[0] != b[0] {
        a[0] < b[0]
    } else {
        precedes(a.drop_first(), b.drop_first())
    }
}

/// Of two sequences, one comes before the other or equals it.
pub proof fn lemma_precedes_total(a: Seq<u8>, b: Seq<u8>)
    ensures
        precedes(a, b) || precedes(b, a),
    decreases a.len(),
{
    if a.len() > 0 && b.len() > 0 && a[0] == b[0] {
        lemma_precedes_total(a.drop_first(), b.drop_first());
    }
}

/// What comes before something that comes before a third, comes before the
/// third.
pub proof fn lemma_precedes_transitive(a: Seq<u8>, b: Seq<u8>, c: Seq<u8>)
    requires
        precedes(a, b),
        precedes(b, c),
    ensures
        precedes(a, c),
    decreases a.len(),
{
    if a.len() > 0 && b.len() > 0 && c.len() > 0 && a[0] == b[0] && b[0] == c[0] {
        lemma_precedes_transitive(a.drop_first(), b.drop_first(), c.drop_first());
    }
}

/// The place that a file with the key `key` is put at among `sorted`: behind
/// the files at the front that come before it or equal it.
pub open spec fn place_of(sorted: Seq<String>, key: Seq<u8>) -> int
    decreases sorted.len(),
{
    if sorted.len() == 0 {
        0
    } else if !precedes(key_of(sorted[0]@), key) {
        0
    } else {
        1 + place_of(sorted.drop_first(), key)
    }
}

/// The files in the order of their names, letters taken in lower case.
/// Files whose names are the same that way stay in the order they came in.
pub open spec fn sorted(files: Seq<String>) -> Seq<String>
    decreases files.len(),
{
    if files.len() == 0 {
        files
    } else {
        let before = sorted(files.drop_last());
        before.insert(place_of(before, key_of(files.last()@)), files.last())
    }
}

/// Whether every file of `files` comes before the next or equals it.
pub open spec fn ordered(files: Seq<String>) -> bool {
    forall|i: int, j: int|
        0 <= i < j < files.len() ==> precedes(key_of(#[trigger] files[i]@), key_of(#[trigger] files[j]@))
}

/// The place of a file lies within the files, those before it come before
/// the file or equal it, and the one at it does not.
pub proof fn lemma_place_of(files: Seq<String>, key: Seq<u8>)
    ensures
        0 <= place_of(files, key) <= files.len(),
        forall|i: int|
            0 <= i < place_of(files, key) ==> precedes(key_of(#[trigger] files[i]@), key),
        place_of(files, key) < files.len() ==> !precedes(
            key_of(files[place_of(files, key)]@),
            key,
        ),
    decreases files.len(),
{
    if files.len() > 0 && precedes(key_of(files[0]@), key) {
        lemma_place_of(files.drop_first(), key);
        assert forall|i: int| 0 <= i < place_of(files, key) implies precedes(
            key_of(#[trigger] files[i]@),
            key,
        ) by {
            if i > 0 {
                assert(files[i] == files.drop_first()[i - 1]);
            }
        }
        if place_of(files, key) < files.len() {
            assert(files[place_of(files, key)] == files.drop_first()[place_of(files, key) - 1]);
        }
    }
}

/// Sorting keeps the number of files.
pub proof fn lemma_sorted_len(files: Seq<String>)
    ensures
        sorted(files).len() == files.len(),
    decreases files.len(),
{
    if files.len() > 0 {
        lemma_sorted_len(files.drop_last());
        lemma_place_of(sorted(files.drop_last()), key_of(files.last()@));
    }
}

/// What is sorted is in order.
pub proof fn lemma_sorted_is_ordered(files: Seq<String>)
    ensures
        ordered(sorted(files)),
    decreases files.len(),
{
    if files.len() > 0 {
        let before = sorted(files.drop_last());
        let key = key_of(files.last()@);
        let place = place_of(before, key);
        let after = sorted(files);
        lemma_sorted_is_ordered(files.drop_last());
        lemma_place_of(before, key);
        assert forall|i: int, j: int| 0 <= i < j < after.len() implies precedes(
            key_of(#[trigger] after[i]@),
            key_of(#[trigger] after[j]@),
        ) by {
            if j < place {
                assert(after[i] == before[i] && after[j] == before[j]);
            } else if j == place {
                assert(after[i] == before[i]);
            } else if i == place {
                assert(after[j] == before[j - 1]);
                lemma_precedes_total(key_of(before[place]@), key);
                if j - 1 > place {
                    lemma_precedes_transitive(
                        key,
                        key_of(before[place]@),
                        key_of(before[j - 1]@),
                    );
                }
            } else if i < place {
                assert(after[i] == before[i] && after[j] == before[j - 1]);
            } else {
                assert(after[i] == before[i - 1] && after[j] == before[j - 1]);
            }
        }
    }
}

/// What is sorted holds the same files as before, each as often.
pub proof fn lemma_sorted_is_permutation(files: Seq<String>)
    ensures
        sorted(files).to_multiset() == files.to_multiset(),
    decreases files.len(),
{
    broadcast use vstd::seq_lib::group_to_multiset_ensures;

    if files.len() > 0 {
        let before = sorted(files.drop_last());
        let place = place_of(before, key_of(files.last()@));
        lemma_sorted_is_permutation(files.drop_last());
        lemma_place_of(before, key_of(files.last()@));
        assert(files.drop_last().push(files.last()) =~= files);
        assert(before.insert(place, files.last()).to_multiset() =~= before.to_multiset().insert(
            files.last(),
        ));
        assert(files.to_multiset() =~= files.drop_last().to_multiset().insert(files.last()));
    }
}

/// Whether `tests` pairs, under the numbers from 0 on, the inputs and the
/// references in the order of their names, as far as both reach.
pub open spec fn tests_of(
    tests: Map<usize, (String, String)>,
    inputs: Seq<String>,
    references: Seq<String>,
) -> bool {
    &&& forall|id: usize|
        tests.contains_key(id) <==> id < inputs.len() && id < references.len()
    &&& forall|id: usize| #[trigger]
        tests.contains_key(id) ==> tests[id].0@ == sorted(inputs)[id as int]@ && tests[id].1@
            == sorted(references)[id as int]@
}

/// What a file is ordered by.
pub fn sort_key(path: &str) -> (key: Vec<u8>)
    ensures
        key@ == key_of(path@),
{
    let bytes = path.as_bytes();
    let mut start: usize = bytes.len();
    proof {
        assert(bytes@.take(bytes.len() as int) =~= bytes@);
    }
    while start > 0 && bytes[start - 1] != 47u8
        invariant
            start <= bytes.len(),
            name_start(bytes@) == name_start(bytes@.take(start as int)),
        decreases start,
    {
        proof {
            assert(bytes@.take(start as int).drop_last() =~= bytes@.take(start as int - 1));
        }
        start -= 1;
    }
    assert(name_start(bytes@) == start);
    let mut key: Vec<u8> = Vec::new();
    let mut i: usize = start;
    while i < bytes.len()
        invariant
            start <= i <= bytes.len(),
            key@ == bytes@.subrange(start as int, i as int).map_values(|byte: u8| lower(byte)),
        decreases bytes.len() - i,
    {
        let byte = bytes[i];
        let lowered = if 65 <= byte && byte <= 90 {
            byte + 32
        } else {
            byte
        };
        key.push(lowered);
        assert(key@ =~= bytes@.subrange(start as int, i as int + 1).map_values(
            |byte: u8| lower(byte),
        ));
        i += 1;
    }
    assert(bytes@.subrange(start as int, bytes.len() as int) =~= bytes@.skip(start as int));
    key
}

/// Tells whether `a` comes before `b` or equals it.
pub fn comes_before(a: &Vec<u8>, b: &Vec<u8>) -> (before: bool)
    ensures
        before == precedes(a@, b@),
{
    let mut i: usize = 0;
    proof {
        assert(a@.skip(0) =~= a@);
        assert(b@.skip(0) =~= b@);
    }
    while i < a.len()
        invariant
            i <= a.len(),
            i <= b.len(),
            precedes(a@, b@) == precedes(a@.skip(i as int), b@.skip(i as int)),
        decreases a.len() - i,
    {
        if i >= b.len() {
            return false;
        }
        if a[i] != b[i] {
            return a[i] < b[i];
        }
        proof {
            assert(a@.skip(i as int).drop_first() =~= a@.skip(i as int + 1));
            assert(b@.skip(i as int).drop_first() =~= b@.skip(i as int + 1));
        }
        i += 1;
    }
    true
}

/// Puts the files in the order of their names, letters taken in lower
/// case.
pub fn sort_files(files: &Vec<String>) -> (result: Vec<String>)
    ensures
        result@ == sorted(files@),
{
    let mut result: Vec<String> = Vec::new();
    let mut n: usize = 0;
    proof {
        assert(files@.take(0) =~= Seq::<String>::empty());
    }
    while n < files.len()
        invariant
            n <= files.len(),
            result@ == sorted(files@.take(n as int)),
        decreases files.len() - n,
    {
        let file = files[n].clone();
        let key = sort_key(file.as_str());
        let mut place: usize = 0;
        proof {
            assert(result@.skip(0) =~= result@);
            lemma_sorted_len(files@.take(n as int));
        }
        loop
            invariant_except_break
                place <= result.len(),
                place_of(result@, key@) == place + place_of(result@.skip(place as int), key@),
            ensures
                place <= result.len(),
                place_of(result@, key@) == place,
            decreases result.len() - place,
        {
            if place >= result.len() {
                break ;
            }
            let other = sort_key(result[place].as_str());
            if !comes_before(&other, &key) {
                assert(result@.skip(place as int)[0] == result@[place as int]);
                break ;
            }
            proof {
                assert(result@.skip(place as int)[0] == result@[place as int]);
                assert(result@.skip(place as int).drop_first() =~= result@.skip(place as int + 1));
            }
            place += 1;
        }
        proof {
            assert(files@.take(n as int + 1).drop_last() =~= files@.take(n as int));
            assert(files@.take(n as int + 1).last() == files@[n as int]);
        }
        result.insert(place, file);
        n += 1;
    }
    proof {
        assert(files@.take(files.len() as int) =~= files@);
    }
    result
}

/// Puts `pair` into `tests` as the test `id`.
fn put(tests: &mut BTreeMap<usize, (String, String)>, id: usize, pair: (String, String))
    ensures
        final(tests)@ == old(tests)@.insert(id, pair),
{
    assert(vstd::laws_cmp::obeys_cmp::<usize>());
    tests.insert(id, pair);
}

/// Pairs the inputs and the references of a problem into its tests: both
/// are put in the order of their file names, and the first input goes with
/// the first reference as test 0, the second with the second as test 1, and
/// so on as far as both reach.
pub fn generate_tests(input_files: &Vec<String>, reference_files: &Vec<String>) -> (tests:
    BTreeMap<usize, (String, String)>)
    ensures
        tests_of(tests@, input_files@, reference_files@),
{
    let inputs = sort_files(input_files);
    let references = sort_files(reference_files);
    proof {
        lemma_sorted_len(input_files@);
        lemma_sorted_len(reference_files@);
    }
    let mut tests: BTreeMap<usize, (String, String)> = BTreeMap::new();
    let mut id: usize = 0;
    while id < inputs.len() && id < references.len()
        invariant
            id <= inputs.len(),
            id <= references.len(),
            inputs@ == sorted(input_files@),
            references@ == sorted(reference_files@),
            forall|other: usize| tests@.contains_key(other) <==> other < id,
            forall|other: usize| #[trigger]
                tests@.contains_key(other) ==> tests@[other].0@ == inputs@[other as int]@
                    && tests@[other].1@ == references@[other as int]@,
        decreases inputs.len() - id,
    {
        put(&mut tests, id, (inputs[id].clone(), references[id].clone()));
        id += 1;
    }
    tests
}

} // verus!
