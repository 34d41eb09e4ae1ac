use vstd::prelude::*;
use crate::dispatching::UpdateWithCx;

verus! {

/// What a matcher has extracted from an update, together with the context
/// that the update came in.
#[derive(Debug, Clone)]
pub struct DataWithUWC<'a, D, U> {
    pub data: D,
    pub uwc: UpdateWithCx<'a, U>,
}

impl<'a, D, U> DataWithUWC<'a, D, U> {
    /// `data` together with the context that it was taken from.
    pub fn new(data: D, uwc: UpdateWithCx<'a, U>) -> (found: Self)
        ensures
            found.data == data,
            found.uwc == uwc,
    {
        Self { data, uwc }
    }
}

/// A matcher: it inspects an update in its context, and either extracts data
/// from it or hands the context back for the next matcher to try.
///
/// Whether a matcher recognises a context, and what it extracts from it, is
/// decided by the matcher and the context alone. A matcher that recognises
/// the context returns it with the data; one that does not returns it as it
/// came, with nothing taken from it and nothing changed in it.
pub trait Parser {
    /// What the matcher inspects.
    type Update;

    /// What the matcher extracts.
    type Output;

    /// Whether the matcher recognises `cx`.
    spec fn recognises(&self, cx: UpdateWithCx<'_, Self::Update>) -> bool;

    /// What the matcher extracts from a context that it recognises.
    spec fn extracts(&self, cx: UpdateWithCx<'_, Self::Update>) -> Self::Output;

    /// Inspects `cx`: the extracted data with the context if the matcher
    /// recognises it, and the context as it came if not.
    fn parse<'a>(&self, cx: UpdateWithCx<'a, Self::Update>) -> (outcome: Result<
        DataWithUWC<'a, Self::Output, Self::Update>,
        UpdateWithCx<'a, Self::Update>,
    >)
        ensures
            match outcome {
                Ok(found) => self.recognises(cx) && found.uwc == cx && found.data == self.extracts(
                    cx,
                ),
                Err(back) => !self.recognises(cx) && back == cx,
            },
    ;
}

/// What `parser` makes of `cx`.
pub open spec fn outcome_of<'a, P: Parser>(parser: P, cx: UpdateWithCx<'a, P::Update>) -> Result<
    DataWithUWC<'a, P::Output, P::Update>,
    UpdateWithCx<'a, P::Update>,
> {
    if parser.recognises(cx) {
        Ok(DataWithUWC { data: parser.extracts(cx), uwc: cx })
    } else {
        Err(cx)
    }
}

/// The matchers of `parsers` tried in turn on `cx`, the second on what the
/// first handed back, and so on: what the first one that succeeds extracts,
/// with its place in the list, or what the last one handed back once all
/// have failed.
pub open spec fn tried_in_turn<'a, P: Parser>(
    parsers: Seq<P>,
    cx: UpdateWithCx<'a, P::Update>,
) -> Result<(int, DataWithUWC<'a, P::Output, P::Update>), UpdateWithCx<'a, P::Update>>
    decreases parsers.len(),
{
    if parsers.len() == 0 {
        Err(cx)
    } else {
        match outcome_of(parsers[0], cx) {
            Ok(found) => Ok((0, found)),
            Err(back) => match tried_in_turn(parsers.drop_first(), back) {
                Ok((at, found)) => Ok((at + 1, found)),
                Err(back) => Err(back),
            },
        }
    }
}

/// Whether the matcher at `at` is the first of `parsers` that recognises
/// `cx`.
pub open spec fn is_first_match<P: Parser>(
    parsers: Seq<P>,
    cx: UpdateWithCx<'_, P::Update>,
    at: int,
) -> bool {
    &&& 0 <= at < parsers.len()
    &&& parsers[at].recognises(cx)
    &&& forall|before: int| 0 <= before < at ==> !(#[trigger] parsers[before]).recognises(cx)
}

/// Whether none of `parsers` recognises `cx`.
pub open spec fn none_match<P: Parser>(parsers: Seq<P>, cx: UpdateWithCx<'_, P::Update>) -> bool {
    forall|at: int| 0 <= at < parsers.len() ==> !(#[trigger] parsers[at]).recognises(cx)
}

/// Trying matchers in turn, each on what the one before handed back, is one
/// scan of the list on the context as it first came: the scan stops at the
/// first matcher that recognises that context, with what this matcher
/// extracts from it, and where no matcher recognises it the context comes
/// back as it was.
pub proof fn chain_is_linear_scan<'a, P: Parser>(parsers: Seq<P>, cx: UpdateWithCx<'a, P::Update>)
    ensures
        match tried_in_turn(parsers, cx) {
            Ok((at, found)) => is_first_match(parsers, cx, at) && found == (DataWithUWC {
                data: parsers[at].extracts(cx),
                uwc: cx,
            }),
            Err(back) => none_match(parsers, cx) && back == cx,
        },
    decreases parsers.len(),
{
    if parsers.len() > 0 && !parsers[0].recognises(cx) {
        let rest = parsers.drop_first();
        chain_is_linear_scan(rest, cx);
        assert(forall|at: int| 0 <= at < rest.len() ==> rest[at] == parsers[at + 1]);
        match tried_in_turn(rest, cx) {
            Ok((at, found)) => {
                assert forall|before: int| 0 <= before < at + 1 implies !(
                #[trigger] parsers[before]).recognises(cx) by {
                    if before > 0 {
                        assert(rest[before - 1] == parsers[before]);
                    }
                }
            },
            Err(back) => {
                assert forall|at: int| 0 <= at < parsers.len() implies !(
                #[trigger] parsers[at]).recognises(cx) by {
                    if at > 0 {
                        assert(rest[at - 1] == parsers[at]);
                    }
                }
            },
        }
    }
}

/// Tries `parsers` in turn on `cx`, each on what the one before handed back,
/// and stops at the first that succeeds: the place of that matcher in the
/// list and what it extracted, or the context as it came once all have
/// failed.
pub fn parse_first<'a, P: Parser>(parsers: &[P], cx: UpdateWithCx<'a, P::Update>) -> (outcome:
    Result<(usize, DataWithUWC<'a, P::Output, P::Update>), UpdateWithCx<'a, P::Update>>)
    ensures
        tried_in_turn(parsers@, cx) == match outcome {
            Ok((at, found)) => Ok((at as int, found)),
            Err(back) => Err(back),
        },
        match outcome {
            Ok((at, found)) => is_first_match(parsers@, cx, at as int) && found.uwc == cx
                && found.data == parsers@[at as int].extracts(cx),
            Err(back) => none_match(parsers@, cx) && back == cx,
        },
{
    let mut current = cx;
    let mut at: usize = 0;
    while at < parsers.len()
        invariant
            at <= parsers.len(),
            current == cx,
            forall|before: int| 0 <= before < at ==> !(#[trigger] parsers@[before]).recognises(cx),
        decreases parsers.len() - at,
    {
        match parsers[at].parse(current) {
            Ok(found) => {
                proof {
                    chain_is_linear_scan(parsers@, cx);
                }
                return Ok((at, found));
            },
            Err(back) => {
                current = back;
            },
        }
        at += 1;
    }
    proof {
        chain_is_linear_scan(parsers@, cx);
    }
    Err(current)
}

} // verus!
