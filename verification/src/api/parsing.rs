use vstd::prelude::*;

verus! {

/// What reading a response body chunk by chunk gives: the chunks' bytes in
/// order, or the first error met.
pub open spec fn collected(chunks: Seq<Result<Vec<u8>, String>>) -> Result<Seq<u8>, String>
    decreases chunks.len(),
{
    if chunks.len() == 0 {
        Ok(Seq::empty())
    } else {
        match collected(chunks.drop_last()) {
            Err(e) => Err(e),
            Ok(prefix) => match chunks.last() {
                Ok(c) => Ok(prefix + c@),
                Err(e) => Err(e),
            },
        }
    }
}

/// Once an error has been met, later chunks do not change the outcome.
pub proof fn lemma_collected_error_stays(chunks: Seq<Result<Vec<u8>, String>>, n: int)
    requires
        0 <= n <= chunks.len(),
        collected(chunks.take(n)) is Err,
    ensures
        collected(chunks) == collected(chunks.take(n)),
    decreases chunks.len() - n,
{
    if n < chunks.len() {
        assert(chunks.take(n + 1).drop_last() =~= chunks.take(n));
        lemma_collected_error_stays(chunks, n + 1);
    } else {
        assert(chunks.take(n) =~= chunks);
    }
}

/// Gathers the chunks of a response body into one byte vector; the first
/// chunk that failed to arrive makes the whole read fail with its error.
pub fn parse_response_into_bytes(chunks: Vec<Result<Vec<u8>, String>>) -> (res: Result<Vec<u8>, String>)
    ensures
        match res {
            Ok(bytes) => collected(chunks@) == Ok::<Seq<u8>, String>(bytes@),
            Err(e) => collected(chunks@) == Err::<Seq<u8>, String>(e),
        },
{
    let mut all_bytes: Vec<u8> = Vec::new();
    let mut i: usize = 0;
    assert(chunks@.take(0) =~= Seq::<Result<Vec<u8>, String>>::empty());
    while i < chunks.len()
        invariant
            i <= chunks@.len(),
            collected(chunks@.take(i as int)) == Ok::<Seq<u8>, String>(all_bytes@),
        decreases chunks.len() - i,
    {
        assert(chunks@.take(i + 1).drop_last() =~= chunks@.take(i as int));
        match &chunks[i] {
            Ok(chunk) => {
                let ghost before = all_bytes@;
                all_bytes.extend_from_slice(chunk.as_slice());
                assert(all_bytes@ =~= before + chunk@);
                assert(chunks@.take(i + 1).last() == chunks@[i as int]);
                assert(collected(chunks@.take(i + 1)) == Ok::<Seq<u8>, String>(all_bytes@));
            },
            Err(e) => {
                let err = e.clone();
                proof {
                    lemma_collected_error_stays(chunks@, i + 1);
                }
                return Err(err);
            },
        }
        i = i + 1;
    }
    assert(chunks@.take(chunks@.len() as int) =~= chunks@);
    Ok(all_bytes)
}

} // verus!
