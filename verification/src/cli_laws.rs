//! What holds of every command line.

use vstd::prelude::*;

use crate::backend_kind::{backend_names_differ, AsrBackendKind};
use crate::cli::{
    backend_of, command_of, nothing_settled, pipe_of, settle, source_of, target_of, typed_value,
    CommandView, PipeView, Settled, SourceView, TargetView,
};

verus! {

/// Nothing is lost in splitting a value: the parts, with a colon between them,
/// are the value, and the first part holds no colon.
pub proof fn typed_value_rejoins(value: Seq<char>)
    ensures
        !typed_value(value).0.contains(':'),
        match typed_value(value).1 {
            Some(rest) => value == typed_value(value).0 + seq![':'] + rest,
            None => value == typed_value(value).0,
        },
{
    value.index_of_first_ensures(':');
    match value.index_of_first(':') {
        Some(i) => {
            assert(value =~= value.subrange(0, i) + seq![':'] + value.subrange(
                i + 1,
                value.len() as int,
            ));
        },
        None => {},
    }
}

/// Only the first colon splits: whatever follows it, further colons among it,
/// comes out as it went in.
pub proof fn typed_value_of_parts(kind: Seq<char>, rest: Seq<char>)
    requires
        !kind.contains(':'),
    ensures
        typed_value(kind + seq![':'] + rest) == (kind, Some(rest)),
{
    let value = kind + seq![':'] + rest;
    value.index_of_first_ensures(':');
    assert(value[kind.len() as int] == ':');
    assert(value.contains(':'));
    let i = value.index_of_first(':')->0;
    if i < kind.len() {
        assert(kind[i] == ':');
    }
    assert(i == kind.len());
    assert(value.subrange(0, i) =~= kind);
    assert(value.subrange(i + 1, value.len() as int) =~= rest);
}

/// A value without a colon is all kind.
pub proof fn typed_value_of_kind(kind: Seq<char>)
    requires
        !kind.contains(':'),
    ensures
        typed_value(kind) == (kind, None::<Seq<char>>),
{
    kind.index_of_first_ensures(':');
}

/// The kinds of sources and targets: none holds a colon, and they differ.
proof fn kinds_are_plain()
    ensures
        !"file"@.contains(':'),
        !"device"@.contains(':'),
        !"stdout"@.contains(':'),
        "file"@ != "device"@,
        "file"@ != "stdout"@,
{
    reveal_strlit("file");
    reveal_strlit("device");
    reveal_strlit("stdout");
    assert("file"@.len() == 4);
    assert("device"@.len() == 6);
    assert("stdout"@.len() == 6);
}

/// `file:` before any path names that path, on both sides, whatever the path
/// holds: a drive letter's colon too.
pub proof fn file_values_keep_their_path(path: Seq<char>)
    requires
        path.len() > 0,
    ensures
        source_of("file"@ + seq![':'] + path) == Ok::<SourceView, Seq<char>>(
            SourceView::File(path),
        ),
        target_of("file"@ + seq![':'] + path) == Ok::<TargetView, Seq<char>>(
            TargetView::File(path),
        ),
{
    kinds_are_plain();
    typed_value_of_parts("file"@, path);
}

/// `device:` before any name asks for the device of that name.
pub proof fn device_values_keep_their_name(name: Seq<char>)
    requires
        name.len() > 0,
    ensures
        source_of("device"@ + seq![':'] + name) == Ok::<SourceView, Seq<char>>(
            SourceView::Device(Some(name)),
        ),
{
    kinds_are_plain();
    typed_value_of_parts("device"@, name);
}

/// A backend's name is parsed to that backend, and no other text is.
pub proof fn backend_names_round_trip(backend: AsrBackendKind, name: Seq<char>)
    ensures
        backend_of(backend.name()) == Ok::<AsrBackendKind, Seq<char>>(backend),
        backend_of(name) == Ok::<AsrBackendKind, Seq<char>>(backend) ==> name == backend.name(),
{
    backend_names_differ(backend, AsrBackendKind::Whisper);
}

/// Every argument of `pipe` belongs to a pair of a flag and a value that the flag
/// can take.
pub open spec fn all_pairs_fit(args: Seq<Seq<char>>) -> bool
    decreases args.len(),
{
    args.len() == 0 || {
        &&& args.len() >= 2
        &&& {
            ||| args[0] == "-i"@ && source_of(args[1]) is Ok
            ||| args[0] == "-o"@ && target_of(args[1]) is Ok
            ||| args[0] == "--backend"@ && backend_of(args[1]) is Ok
        }
        &&& all_pairs_fit(args.skip(2))
    }
}

/// The values that the pairs of `args` give to `flag`, from left to right.
pub open spec fn given(args: Seq<Seq<char>>, flag: Seq<char>) -> Seq<Seq<char>>
    decreases args.len(),
{
    if args.len() < 2 {
        Seq::empty()
    } else if args[0] == flag {
        seq![args[1]] + given(args.skip(2), flag)
    } else {
        given(args.skip(2), flag)
    }
}

/// The targets that values of `-o` name.
pub open spec fn targets_named(values: Seq<Seq<char>>) -> Seq<TargetView> {
    values.map_values(|value: Seq<char>| target_of(value)->Ok_0)
}

/// The backend that the last value of `--backend` names, `before` if there is none.
pub open spec fn backend_named(
    values: Seq<Seq<char>>,
    before: AsrBackendKind,
) -> AsrBackendKind {
    if values.len() == 0 {
        before
    } else {
        backend_of(values.last())->Ok_0
    }
}

proof fn settle_collects(args: Seq<Seq<char>>, so_far: Settled)
    ensures
        settle(args, so_far) is Ok <==> {
            &&& all_pairs_fit(args)
            &&& given(args, "-i"@).len() + (if so_far.source is Some { 1int } else { 0 }) <= 1
        },
        settle(args, so_far) is Ok ==> {
            let settled = settle(args, so_far)->Ok_0;
            &&& settled.targets == so_far.targets + targets_named(given(args, "-o"@))
            &&& settled.backend == backend_named(given(args, "--backend"@), so_far.backend)
            &&& (settled.source is Some) == (so_far.source is Some || given(args, "-i"@).len() == 1)
            &&& so_far.source is Some ==> settled.source == so_far.source
            &&& so_far.source is None && given(args, "-i"@).len() == 1 ==> settled.source
                == Some(source_of(given(args, "-i"@)[0])->Ok_0)
        },
    decreases args.len(),
{
    reveal_strlit("-i");
    reveal_strlit("-o");
    reveal_strlit("--backend");
    assert("-i"@[1] == 'i' && "-o"@[1] == 'o');
    assert("-i"@.len() == 2 && "-o"@.len() == 2 && "--backend"@.len() == 9);
    if args.len() == 0 {
        assert(targets_named(given(args, "-o"@)) =~= Seq::empty());
    } else if args.len() >= 2 {
        let rest = args.skip(2);
        if args[0] == "-i"@ && so_far.source is None && source_of(args[1]) is Ok {
            let next = Settled { source: Some(source_of(args[1])->Ok_0), ..so_far };
            settle_collects(rest, next);
            assert(given(args, "-i"@) =~= seq![args[1]] + given(rest, "-i"@));
        } else if args[0] == "-o"@ && target_of(args[1]) is Ok {
            let target = target_of(args[1])->Ok_0;
            let next = Settled { targets: so_far.targets.push(target), ..so_far };
            settle_collects(rest, next);
            assert(so_far.targets + targets_named(given(args, "-o"@)) =~= next.targets
                + targets_named(given(rest, "-o"@)));
        } else if args[0] == "--backend"@ && backend_of(args[1]) is Ok {
            let next = Settled { backend: backend_of(args[1])->Ok_0, ..so_far };
            settle_collects(rest, next);
            let values = given(rest, "--backend"@);
            assert(given(args, "--backend"@) == seq![args[1]] + values);
            assert(values.len() > 0 ==> (seq![args[1]] + values).last() == values.last());
        }
    }
}

/// `pipe` accepts its arguments exactly when they are pairs of a flag and a
/// fitting value, with one `-i` and at least one `-o` among them, in any order.
/// It then reads from what `-i` names, writes to everything that the `-o`s name,
/// in their order, and recognizes with the last `--backend`, or with Whisper.
pub proof fn pipe_accepts_exactly(args: Seq<Seq<char>>)
    ensures
        pipe_of(args) is Ok <==> {
            &&& all_pairs_fit(args)
            &&& given(args, "-i"@).len() == 1
            &&& given(args, "-o"@).len() >= 1
        },
        pipe_of(args) is Ok ==> pipe_of(args)->Ok_0 == (PipeView {
            source: source_of(given(args, "-i"@)[0])->Ok_0,
            targets: targets_named(given(args, "-o"@)),
            backend: backend_named(given(args, "--backend"@), AsrBackendKind::Whisper),
        }),
{
    settle_collects(args, nothing_settled());
    assert(nothing_settled().targets + targets_named(given(args, "-o"@)) =~= targets_named(
        given(args, "-o"@),
    ));
}

/// The pairs of a flag and a value that the arguments are made of.
pub open spec fn pairs(args: Seq<Seq<char>>) -> Seq<(Seq<char>, Seq<char>)> {
    Seq::new(args.len() / 2, |i: int| (args[2 * i], args[2 * i + 1]))
}

/// Both are made of the same pairs, each as often here as there. The values of `-o`
/// come in the same order, and so do those of `--backend`.
pub open spec fn is_reordering(args: Seq<Seq<char>>, other: Seq<Seq<char>>) -> bool {
    &&& args.len() % 2 == 0
    &&& other.len() % 2 == 0
    &&& pairs(args).to_multiset() == pairs(other).to_multiset()
    &&& given(args, "-o"@) == given(other, "-o"@)
    &&& given(args, "--backend"@) == given(other, "--backend"@)
}

/// The value is one that the flag can take.
spec fn pair_fits(pair: (Seq<char>, Seq<char>)) -> bool {
    ||| pair.0 == "-i"@ && source_of(pair.1) is Ok
    ||| pair.0 == "-o"@ && target_of(pair.1) is Ok
    ||| pair.0 == "--backend"@ && backend_of(pair.1) is Ok
}

proof fn pairs_unfold(args: Seq<Seq<char>>)
    requires
        args.len() >= 2,
    ensures
        pairs(args) == seq![(args[0], args[1])] + pairs(args.skip(2)),
{
    assert(pairs(args) =~= seq![(args[0], args[1])] + pairs(args.skip(2)));
}

proof fn all_pairs_fit_pairwise(args: Seq<Seq<char>>)
    ensures
        all_pairs_fit(args) <==> {
            &&& args.len() % 2 == 0
            &&& forall|pair: (Seq<char>, Seq<char>)|
                pairs(args).contains(pair) ==> #[trigger] pair_fits(pair)
        },
    decreases args.len(),
{
    if args.len() >= 2 {
        let rest = args.skip(2);
        all_pairs_fit_pairwise(rest);
        pairs_unfold(args);
        let first = (args[0], args[1]);
        assert(pairs(args)[0] == first);
        assert forall|pair: (Seq<char>, Seq<char>)| pairs(rest).contains(pair) implies #[trigger]
            pairs(args).contains(pair) by {
            let i = choose|i: int| 0 <= i < pairs(rest).len() && pairs(rest)[i] == pair;
            assert(pairs(args)[i + 1] == pair);
        }
        assert forall|pair: (Seq<char>, Seq<char>)| #[trigger] pairs(args).contains(pair) implies
            pair == first || pairs(rest).contains(pair) by {
            let i = choose|i: int| 0 <= i < pairs(args).len() && pairs(args)[i] == pair;
            if i > 0 {
                assert(pairs(rest)[i - 1] == pair);
            }
        }
        assert(pair_fits(first) <==> {
            ||| args[0] == "-i"@ && source_of(args[1]) is Ok
            ||| args[0] == "-o"@ && target_of(args[1]) is Ok
            ||| args[0] == "--backend"@ && backend_of(args[1]) is Ok
        });
    }
}

proof fn given_are_the_pairs(args: Seq<Seq<char>>, flag: Seq<char>, value: Seq<char>)
    ensures
        given(args, flag).contains(value) <==> pairs(args).contains((flag, value)),
    decreases args.len(),
{
    if args.len() >= 2 {
        let rest = args.skip(2);
        given_are_the_pairs(rest, flag, value);
        pairs_unfold(args);
        if pairs(rest).contains((flag, value)) {
            let i = choose|i: int|
                0 <= i < pairs(rest).len() && pairs(rest)[i] == (flag, value);
            assert(pairs(args)[i + 1] == (flag, value));
            let k = choose|k: int| 0 <= k < given(rest, flag).len() && given(rest, flag)[k] == value;
            assert(given(args, flag)[if args[0] == flag { k + 1 } else { k }] == value);
        } else if args[0] == flag && args[1] == value {
            assert(pairs(args)[0] == (flag, value));
            assert(given(args, flag)[0] == value);
        } else {
            if pairs(args).contains((flag, value)) {
                let i = choose|i: int|
                    0 <= i < pairs(args).len() && pairs(args)[i] == (flag, value);
                assert(i > 0);
                assert(pairs(rest)[i - 1] == (flag, value));
            }
            if given(args, flag).contains(value) {
                let k = choose|k: int|
                    0 <= k < given(args, flag).len() && given(args, flag)[k] == value;
                if args[0] == flag {
                    assert(k > 0);
                    assert(given(rest, flag)[k - 1] == value);
                } else {
                    assert(given(rest, flag)[k] == value);
                }
            }
        }
    }
}

proof fn every_pair_is_given(args: Seq<Seq<char>>)
    requires
        all_pairs_fit(args),
    ensures
        given(args, "-i"@).len() + given(args, "-o"@).len() + given(args, "--backend"@).len()
            == args.len() / 2,
    decreases args.len(),
{
    reveal_strlit("-i");
    reveal_strlit("-o");
    reveal_strlit("--backend");
    assert("-i"@[1] == 'i' && "-o"@[1] == 'o');
    assert("-i"@.len() == 2 && "-o"@.len() == 2 && "--backend"@.len() == 9);
    if args.len() >= 2 {
        every_pair_is_given(args.skip(2));
    }
}

proof fn reordered_pipes_are_accepted(args: Seq<Seq<char>>, other: Seq<Seq<char>>)
    requires
        is_reordering(args, other),
        pipe_of(args) is Ok,
    ensures
        pipe_of(other) == pipe_of(args),
{
    broadcast use vstd::seq_lib::group_to_multiset_ensures;

    pipe_accepts_exactly(args);
    pipe_accepts_exactly(other);
    all_pairs_fit_pairwise(args);
    all_pairs_fit_pairwise(other);
    assert forall|pair: (Seq<char>, Seq<char>)| pairs(other).contains(pair) implies #[trigger]
        pair_fits(pair) by {
        assert(pairs(other).to_multiset().count(pair) > 0);
        assert(pairs(args).contains(pair));
    }
    assert(pairs(args).to_multiset().len() == pairs(args).len());
    assert(pairs(other).to_multiset().len() == pairs(other).len());
    every_pair_is_given(args);
    every_pair_is_given(other);
    let source = given(other, "-i"@)[0];
    given_are_the_pairs(other, "-i"@, source);
    given_are_the_pairs(args, "-i"@, source);
    assert(pairs(other).to_multiset().count(("-i"@, source)) > 0);
    assert(pairs(args).contains(("-i"@, source)));
    assert(given(args, "-i"@)[0] == source);
}

/// The order between different flags does not matter: reordering the pairs, with the
/// `-o`s kept in order among themselves and the `--backend`s among themselves, changes
/// neither whether `pipe` accepts its arguments nor what it then does.
pub proof fn order_between_flags_is_free(args: Seq<Seq<char>>, other: Seq<Seq<char>>)
    requires
        is_reordering(args, other),
    ensures
        pipe_of(args) is Ok <==> pipe_of(other) is Ok,
        pipe_of(args) is Ok ==> pipe_of(other) == pipe_of(args),
{
    if pipe_of(args) is Ok {
        reordered_pipes_are_accepted(args, other);
    } else if pipe_of(other) is Ok {
        reordered_pipes_are_accepted(other, args);
    }
}

proof fn settle_goes_on(good: Seq<Seq<char>>, rest: Seq<Seq<char>>, so_far: Settled)
    requires
        settle(good, so_far) is Ok,
    ensures
        settle(good + rest, so_far) == settle(rest, settle(good, so_far)->Ok_0),
    decreases good.len(),
{
    if good.len() == 0 {
        assert(good + rest =~= rest);
    } else {
        let args = good + rest;
        assert(args[0] == good[0] && args[1] == good[1]);
        assert(args.skip(2) =~= good.skip(2) + rest);
        if good[0] == "-i"@ {
            let next = Settled { source: Some(source_of(good[1])->Ok_0), ..so_far };
            settle_goes_on(good.skip(2), rest, next);
        } else if good[0] == "-o"@ {
            let target = target_of(good[1])->Ok_0;
            let next = Settled { targets: so_far.targets.push(target), ..so_far };
            settle_goes_on(good.skip(2), rest, next);
        } else {
            let next = Settled { backend: backend_of(good[1])->Ok_0, ..so_far };
            settle_goes_on(good.skip(2), rest, next);
        }
    }
}

/// `option` cannot stand behind `good`, in front of `rest`: all is well up to it, and
/// it draws a complaint by itself. It is a flag with what follows it, or the last
/// argument of all.
pub open spec fn is_offence(
    good: Seq<Seq<char>>,
    option: Seq<Seq<char>>,
    rest: Seq<Seq<char>>,
) -> bool {
    &&& settle(good, nothing_settled()) is Ok
    &&& option.len() == 2 || option.len() == 1 && rest.len() == 0
    &&& settle(option, settle(good, nothing_settled())->Ok_0) is Err
}

/// The leftmost offence decides: `pipe` complains of it in the words that it draws by
/// itself, whatever follows.
pub proof fn the_leftmost_offence_decides(
    good: Seq<Seq<char>>,
    option: Seq<Seq<char>>,
    rest: Seq<Seq<char>>,
)
    requires
        is_offence(good, option, rest),
    ensures
        pipe_of(good + option + rest) == Err::<PipeView, Seq<char>>(
            settle(option, settle(good, nothing_settled())->Ok_0)->Err_0,
        ),
{
    reveal_with_fuel(settle, 2);
    settle_goes_on(good, option + rest, nothing_settled());
    assert(good + option + rest =~= good + (option + rest));
    let tail = option + rest;
    assert(tail[0] == option[0]);
    if option.len() == 2 {
        assert(tail[1] == option[1]);
        assert(option.skip(2) =~= Seq::empty());
    } else {
        assert(tail =~= option);
    }
}

proof fn complaints_have_an_offence(args: Seq<Seq<char>>, so_far: Settled) -> (k: int)
    requires
        settle(args, so_far) is Err,
    ensures
        0 <= k < args.len(),
        settle(args.take(k), so_far) is Ok,
        settle(
            args.subrange(k, if k + 2 <= args.len() { k + 2 } else { k + 1 }),
            settle(args.take(k), so_far)->Ok_0,
        ) is Err,
        k + 1 == args.len() || k + 2 <= args.len(),
    decreases args.len(),
{
    let option = args.subrange(0, if 2 <= args.len() { 2int } else { 1 });
    assert(args.take(0) =~= Seq::empty());
    assert(option[0] == args[0]);
    assert(option.len() == 2 ==> option[1] == args[1]);
    if settle(option, so_far) is Err {
        0
    } else {
        assert(option =~= args.take(2));
        assert(option + args.skip(2) =~= args);
        settle_goes_on(option, args.skip(2), so_far);
        let next = settle(option, so_far)->Ok_0;
        let k = complaints_have_an_offence(args.skip(2), next);
        assert(args.take(k + 2) =~= option + args.skip(2).take(k));
        settle_goes_on(option, args.skip(2).take(k), so_far);
        let end = if k + 2 <= args.skip(2).len() { k + 2 } else { k + 1 };
        assert(args.subrange(k + 2, end + 2) =~= args.skip(2).subrange(k, end));
        k + 2
    }
}

/// Arguments are rejected for an offence, or for want of a source or a target where
/// there is none.
pub proof fn rejections_have_an_offence(args: Seq<Seq<char>>)
    requires
        pipe_of(args) is Err,
    ensures
        match settle(args, nothing_settled()) {
            Ok(settled) => settled.source is None || settled.targets.len() == 0,
            Err(_) => exists|good: Seq<Seq<char>>, option: Seq<Seq<char>>, rest: Seq<Seq<char>>|
                #[trigger] is_offence(good, option, rest) && args == good + option + rest,
        },
{
    if settle(args, nothing_settled()) is Err {
        let k = complaints_have_an_offence(args, nothing_settled());
        let end = if k + 2 <= args.len() { k + 2 } else { k + 1 };
        let good = args.take(k);
        let option = args.subrange(k, end);
        let rest = args.skip(end);
        assert(args =~= good + option + rest);
        assert(is_offence(good, option, rest));
    }
}

/// A command to transcribe always has somewhere to write to.
pub proof fn accepted_pipes_have_targets(args: Seq<Seq<char>>)
    ensures
        command_of(args) matches Ok(CommandView::Pipe(options)) ==> options.targets.len() >= 1,
{
}

/// The values that name a source: `file:` and a path, `device`, and `device:` and a
/// name. No other value names one.
pub proof fn sources_are_written_one_way(value: Seq<char>, text: Seq<char>)
    ensures
        source_of(value) == Ok::<SourceView, Seq<char>>(SourceView::File(text)) <==> text.len() > 0
            && value == "file"@ + seq![':'] + text,
        source_of(value) == Ok::<SourceView, Seq<char>>(SourceView::Device(Some(text)))
            <==> text.len() > 0 && value == "device"@ + seq![':'] + text,
        source_of(value) == Ok::<SourceView, Seq<char>>(SourceView::Device(None)) <==> value
            == "device"@ || value == "device"@ + seq![':'],
{
    kinds_are_plain();
    typed_value_rejoins(value);
    typed_value_of_parts("file"@, text);
    typed_value_of_parts("device"@, text);
    typed_value_of_parts("device"@, Seq::empty());
    typed_value_of_kind("device"@);
    assert("device"@ + seq![':'] + Seq::<char>::empty() =~= "device"@ + seq![':']);
    if typed_value(value).1 == Some(Seq::<char>::empty()) {
        assert(typed_value(value).0 + seq![':'] + Seq::<char>::empty() =~= typed_value(value).0
            + seq![':']);
    }
    if typed_value(value).1 is Some && typed_value(value).1->0.len() == 0 {
        assert(typed_value(value).1->0 =~= Seq::<char>::empty());
    }
}

/// The values that name a target: `file:` and a path, and `stdout`, with or without a
/// colon. No other value names one.
pub proof fn targets_are_written_one_way(value: Seq<char>, path: Seq<char>)
    ensures
        target_of(value) == Ok::<TargetView, Seq<char>>(TargetView::File(path)) <==> path.len() > 0
            && value == "file"@ + seq![':'] + path,
        target_of(value) == Ok::<TargetView, Seq<char>>(TargetView::Stdout) <==> value
            == "stdout"@ || value == "stdout"@ + seq![':'],
{
    kinds_are_plain();
    typed_value_rejoins(value);
    typed_value_of_parts("file"@, path);
    typed_value_of_parts("stdout"@, Seq::empty());
    typed_value_of_kind("stdout"@);
    assert("stdout"@ + seq![':'] + Seq::<char>::empty() =~= "stdout"@ + seq![':']);
    if typed_value(value).1 is Some && typed_value(value).1->0.len() == 0 {
        assert(typed_value(value).1->0 =~= Seq::<char>::empty());
        assert(typed_value(value).0 + seq![':'] + Seq::<char>::empty() =~= typed_value(value).0
            + seq![':']);
    }
}

/// What is said of values that name nothing: a file without a path, standard output
/// with a value, and every other kind by its name.
pub proof fn bad_values_are_told(kind: Seq<char>, rest: Seq<char>)
    requires
        !kind.contains(':'),
    ensures
        source_of("file"@) == Err::<SourceView, Seq<char>>("-i file requires a path"@),
        source_of("file"@ + seq![':']) == Err::<SourceView, Seq<char>>("-i file requires a path"@),
        target_of("file"@) == Err::<TargetView, Seq<char>>("-o file requires a path"@),
        target_of("file"@ + seq![':']) == Err::<TargetView, Seq<char>>("-o file requires a path"@),
        rest.len() > 0 ==> target_of("stdout"@ + seq![':'] + rest) == Err::<TargetView, Seq<char>>(
            "-o stdout does not accept a value"@,
        ),
        kind != "file"@ && kind != "device"@ ==> {
            &&& source_of(kind) == Err::<SourceView, Seq<char>>(
                "unsupported input type: "@ + kind,
            )
            &&& source_of(kind + seq![':'] + rest) == Err::<SourceView, Seq<char>>(
                "unsupported input type: "@ + kind,
            )
        },
        kind != "file"@ && kind != "stdout"@ ==> {
            &&& target_of(kind) == Err::<TargetView, Seq<char>>(
                "unsupported output type: "@ + kind,
            )
            &&& target_of(kind + seq![':'] + rest) == Err::<TargetView, Seq<char>>(
                "unsupported output type: "@ + kind,
            )
        },
{
    kinds_are_plain();
    typed_value_of_kind(kind);
    typed_value_of_kind("file"@);
    typed_value_of_parts(kind, rest);
    typed_value_of_parts("file"@, Seq::empty());
    typed_value_of_parts("stdout"@, rest);
    assert("file"@ + seq![':'] + Seq::<char>::empty() =~= "file"@ + seq![':']);
}

/// `whisper` and `zipformer` are the backends; any other name is told to be
/// unsupported.
pub proof fn backends_are_written_one_way(name: Seq<char>)
    ensures
        backend_of(name) == Ok::<AsrBackendKind, Seq<char>>(AsrBackendKind::Whisper) <==> name
            == "whisper"@,
        backend_of(name) == Ok::<AsrBackendKind, Seq<char>>(AsrBackendKind::Zipformer) <==> name
            == "zipformer"@,
        name != "whisper"@ && name != "zipformer"@ ==> backend_of(name) == Err::<
            AsrBackendKind,
            Seq<char>,
        >("unsupported backend: "@ + name),
{
    backend_names_differ(AsrBackendKind::Whisper, AsrBackendKind::Zipformer);
}

proof fn flags_differ()
    ensures
        "-i"@ != "-o"@,
        "-i"@ != "--backend"@,
        "-o"@ != "--backend"@,
{
    reveal_strlit("-i");
    reveal_strlit("-o");
    reveal_strlit("--backend");
    assert("-i"@[1] == 'i' && "-o"@[1] == 'o');
    assert("-i"@.len() == 2 && "-o"@.len() == 2 && "--backend"@.len() == 9);
}

/// What an option by itself draws: a second `-i` and an unknown flag are turned down
/// whatever their value is, a flag at the end lacks its value, and otherwise the
/// complaint about the value is passed on.
pub proof fn bad_options_are_told(flag: Seq<char>, value: Seq<char>, so_far: Settled)
    ensures
        so_far.source is Some ==> settle(seq!["-i"@, value], so_far) == Err::<Settled, Seq<char>>(
            "-i can only be used once"@,
        ) && settle(seq!["-i"@], so_far) == Err::<Settled, Seq<char>>("-i can only be used once"@),
        so_far.source is None ==> settle(seq!["-i"@], so_far) == Err::<Settled, Seq<char>>(
            "-i requires file:<path> or device[:name]"@,
        ),
        so_far.source is None && source_of(value) is Err ==> settle(seq!["-i"@, value], so_far)
            == Err::<Settled, Seq<char>>(source_of(value)->Err_0),
        settle(seq!["-o"@], so_far) == Err::<Settled, Seq<char>>(
            "-o requires file:<path> or stdout"@,
        ),
        target_of(value) is Err ==> settle(seq!["-o"@, value], so_far) == Err::<
            Settled,
            Seq<char>,
        >(target_of(value)->Err_0),
        settle(seq!["--backend"@], so_far) == Err::<Settled, Seq<char>>(
            "--backend requires a name"@,
        ),
        backend_of(value) is Err ==> settle(seq!["--backend"@, value], so_far) == Err::<
            Settled,
            Seq<char>,
        >(backend_of(value)->Err_0),
        flag != "-i"@ && flag != "-o"@ && flag != "--backend"@ ==> settle(
            seq![flag, value],
            so_far,
        ) == Err::<Settled, Seq<char>>("unexpected argument: "@ + flag) && settle(
            seq![flag],
            so_far,
        ) == Err::<Settled, Seq<char>>("unexpected argument: "@ + flag),
{
    flags_differ();
}

/// Arguments that fit one by one still need a source, and then a target.
pub proof fn missing_ends_are_told(args: Seq<Seq<char>>)
    requires
        all_pairs_fit(args),
    ensures
        given(args, "-i"@).len() == 0 ==> pipe_of(args) == Err::<PipeView, Seq<char>>(
            "pipe requires -i file:<path> or -i device[:name]"@,
        ),
        given(args, "-i"@).len() == 1 && given(args, "-o"@).len() == 0 ==> pipe_of(args) == Err::<
            PipeView,
            Seq<char>,
        >("pipe requires at least one -o file:<path> or -o stdout"@),
{
    settle_collects(args, nothing_settled());
}

/// What a whole command line asks for goes by its first word: help and version stand
/// alone, everything behind `pipe` is up to `pipe`, and any other word is unknown.
pub proof fn the_first_word_is_the_command(word: Seq<char>, rest: Seq<Seq<char>>)
    ensures
        command_of(Seq::empty()) == Ok::<CommandView, Seq<char>>(CommandView::Help),
        command_of(seq!["--help"@]) == Ok::<CommandView, Seq<char>>(CommandView::Help),
        command_of(seq!["--version"@]) == Ok::<CommandView, Seq<char>>(CommandView::Version),
        pipe_of(rest) is Ok ==> command_of(seq!["pipe"@] + rest) == Ok::<CommandView, Seq<char>>(
            CommandView::Pipe(pipe_of(rest)->Ok_0),
        ),
        pipe_of(rest) is Err ==> command_of(seq!["pipe"@] + rest) == Err::<
            CommandView,
            Seq<char>,
        >(pipe_of(rest)->Err_0),
        word != "pipe"@ && (rest.len() > 0 || word != "--help"@ && word != "--version"@)
            ==> command_of(seq![word] + rest) == Err::<CommandView, Seq<char>>(
            "unknown command: "@ + word,
        ),
{
    reveal_strlit("pipe");
    reveal_strlit("--help");
    reveal_strlit("--version");
    assert("pipe"@.len() == 4 && "--help"@.len() == 6 && "--version"@.len() == 9);
    assert((seq!["pipe"@] + rest).skip(1) =~= rest);
}

} // verus!
