//! What every command has in common, and the command that is spelt out by
//! hand: a name and its arguments.
use crate::types::redis_bytes::RBytes;
use crate::types::redis_values::{
    as_value, is_value, to_value, ConversionError, RedisResult, RedisValue,
};
use crate::types::resp_bytes::{bulk_array, resp_bytes, slices_view};
use vstd::prelude::*;

verus! {

/// A command: something that is encoded to one request frame and that knows
/// how to read the reply to it.
pub trait StructuredCommand: Sized {
    /// What the reply to this command is converted to.
    type Output;

    /// The elements of the request frame: the name of the command, and then
    /// its arguments. A command that does not say what they are leaves them
    /// unspecified.
    open spec fn elements(&self) -> Seq<Seq<u8>> {
        arbitrary()
    }

    /// True when the command may be encoded: none of its keys is over the
    /// size limit.
    open spec fn encodable(&self) -> bool {
        arbitrary()
    }

    /// True when `outcome` is what this command makes of the reply `result`.
    open spec fn converts(
        &self,
        result: RedisResult,
        outcome: Result<Self::Output, ConversionError>,
    ) -> bool {
        arbitrary()
    }

    /// Tells whether the command may be encoded.
    fn is_encodable(&self) -> (r: bool)
        ensures
            r == self.encodable(),
    ;

    /// Encodes the command as one request frame: an array of bulk
    /// byte-strings that holds the name of the command and its arguments.
    fn get_bytes(&self) -> (bytes: Vec<u8>)
        requires
            self.encodable(),
        ensures
            bytes@ == bulk_array(self.elements()) && self.elements().len() >= 1,
    ;

    /// Converts the reply to this command to what the command declares.
    fn convert_redis_result(self, result: RedisResult) -> (outcome: Result<
        Self::Output,
        ConversionError,
    >)
        ensures
            self.converts(result, outcome),
    ;
}

/// The byte sequences that a run of arguments holds.
pub open spec fn args_view<'a>(args: Seq<RBytes<'a>>) -> Seq<Seq<u8>> {
    Seq::new(args.len(), |i: int| args[i]@)
}

/// Appends the bytes of each of `args` to `items`.
pub fn push_args<'a, 'b>(items: &mut Vec<&'b [u8]>, args: &'b Vec<RBytes<'a>>)
    ensures
        slices_view(final(items)@) == slices_view(old(items)@) + args_view(args@),
{
    let mut i: usize = 0;
    proof {
        assert(slices_view(items@) =~= slices_view(old(items)@) + args_view(
            args@.subrange(0, 0),
        ));
    }
    while i < args.len()
        invariant
            i <= args.len(),
            slices_view(items@) == slices_view(old(items)@) + args_view(
                args@.subrange(0, i as int),
            ),
        decreases args.len() - i,
    {
        let ghost before = items@;
        items.push(args[i].as_bytes());
        proof {
            assert(slices_view(items@) =~= slices_view(before).push(args@[i as int]@));
            assert(args_view(args@.subrange(0, i + 1)) =~= args_view(
                args@.subrange(0, i as int),
            ).push(args@[i as int]@));
            assert(slices_view(items@) =~= slices_view(old(items)@) + args_view(
                args@.subrange(0, i + 1),
            ));
        }
        i += 1;
    }
    proof {
        assert(args@.subrange(0, args.len() as int) =~= args@);
    }
}

/// A command that is given by its name and its arguments, for what the
/// typed commands do not cover.
#[derive(Debug, PartialEq, Eq)]
pub struct Command<'a> {
    name: RBytes<'a>,
    args: Vec<RBytes<'a>>,
}

impl<'a> Command<'a> {
    /// The name of the command.
    pub closed spec fn spec_name(&self) -> RBytes<'a> {
        self.name
    }

    /// The arguments of the command.
    pub closed spec fn spec_args(&self) -> Seq<RBytes<'a>> {
        self.args@
    }

    /// The name of the command.
    pub fn name(&self) -> (name: &RBytes<'a>)
        ensures
            *name == self.spec_name(),
    {
        &self.name
    }

    /// The arguments of the command.
    pub fn args(&self) -> (args: &Vec<RBytes<'a>>)
        ensures
            args@ == self.spec_args(),
    {
        &self.args
    }

    /// A command of the given name, without arguments.
    pub fn cmd<N: Into<RBytes<'a>>>(name: N) -> (r: Self)
        ensures
            call_ensures(N::into, (name,), r.spec_name()),
            r.spec_args() == Seq::<RBytes<'a>>::empty(),
    {
        Command { name: name.into(), args: Vec::new() }
    }

    /// A command of the given name and arguments.
    pub fn cmd_with_args<N: Into<RBytes<'a>>, A: Into<RBytes<'a>>>(name: N, args: Vec<A>) -> (r:
        Self)
        ensures
            call_ensures(N::into, (name,), r.spec_name()),
            r.spec_args().len() == args@.len(),
            forall|i: int|
                0 <= i < args@.len() ==> call_ensures(
                    A::into,
                    (#[trigger] args@[i],),
                    r.spec_args()[i],
                ),
    {
        let ghost given = args@;
        let mut converted: Vec<RBytes<'a>> = Vec::new();
        for argument in iter: args
            invariant
                iter.seq() == given,
                converted@.len() == iter.index(),
                forall|i: int|
                    0 <= i < iter.index() ==> call_ensures(
                        A::into,
                        (#[trigger] given[i],),
                        converted@[i],
                    ),
        {
            converted.push(argument.into());
        }
        Command { name: name.into(), args: converted }
    }

    /// The command with one more argument at its end.
    pub fn with_arg<A: Into<RBytes<'a>>>(self, argument: A) -> (r: Self)
        ensures
            r.spec_name() == self.spec_name(),
            r.spec_args().len() == self.spec_args().len() + 1,
            r.spec_args().subrange(0, self.spec_args().len() as int) == self.spec_args(),
            call_ensures(A::into, (argument,), r.spec_args().last()),
    {
        let mut command = self;
        command.args.push(argument.into());
        proof {
            assert(command.args@.subrange(0, self.args@.len() as int) =~= self.args@);
        }
        command
    }
}

impl<'a> StructuredCommand for Command<'a> {
    type Output = Option<RedisValue>;

    open spec fn elements(&self) -> Seq<Seq<u8>> {
        seq![self.spec_name()@] + args_view(self.spec_args())
    }

    open spec fn encodable(&self) -> bool {
        true
    }

    open spec fn converts(
        &self,
        result: RedisResult,
        outcome: Result<Option<RedisValue>, ConversionError>,
    ) -> bool {
        is_value(outcome, as_value(result@))
    }

    fn is_encodable(&self) -> (r: bool) {
        true
    }

    fn get_bytes(&self) -> (bytes: Vec<u8>) {
        let mut items: Vec<&[u8]> = Vec::new();
        items.push(self.name.as_bytes());
        proof {
            assert(slices_view(items@) =~= seq![self.name@]);
        }
        push_args(&mut items, &self.args);
        resp_bytes(items.as_slice())
    }

    fn convert_redis_result(self, result: RedisResult) -> (outcome: Result<
        Option<RedisValue>,
        ConversionError,
    >) {
        to_value(result)
    }
}

} // verus!
