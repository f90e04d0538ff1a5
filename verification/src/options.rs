//! Parsing of the annotation arguments attached to a task function.

use vstd::prelude::*;

use crate::ast::SynToken;
use crate::ast::name_is;
use crate::diag::Diagnostic;
use crate::diag::spec_unexpected_option_message;

verus! {

/// An indication of what kind of IO a function does. Advisory only: used for
/// static analysis and ignored by the transformation itself.
#[derive(Debug, Clone, Copy, PartialEq, Eq, Hash, Structural)]
pub enum IoMarker {
    Filesystem,
    Network,
}

/// The set of IO markers attached to a declaration.
#[derive(Debug, Clone, Copy, PartialEq, Eq, Default)]
pub struct IoMarkers {
    pub filesystem: bool,
    pub network: bool,
}

impl IoMarkers {
    /// Whether the given marker is in the set.
    pub fn contains(&self, m: IoMarker) -> (r: bool)
        ensures
            r == (match m {
                IoMarker::Filesystem => self.filesystem,
                IoMarker::Network => self.network,
            }),
    {
        match m {
            IoMarker::Filesystem => self.filesystem,
            IoMarker::Network => self.network,
        }
    }
}

/// The parsed annotation arguments of a task function.
#[derive(Debug, Clone, Copy, PartialEq, Eq)]
pub struct FunctionArguments {
    /// Manually annotated IO classification; advisory only.
    pub io_markers: IoMarkers,
    /// Set when the output must be checked to be a fully resolved value;
    /// holds the span errors about that check are reported at. Setting
    /// `local_cells` also sets this.
    pub resolved: Option<SynToken>,
    /// Set when the function's cells are local to one execution; holds the
    /// span errors about that option are reported at.
    pub local_cells: Option<SynToken>,
}

impl FunctionArguments {
    /// The option invariant: local cells force the resolved-output check.
    pub open spec fn wf(self) -> bool {
        self.local_cells is Some ==> self.resolved is Some
    }

    /// The configuration with nothing set.
    pub open spec fn spec_default() -> FunctionArguments {
        FunctionArguments {
            io_markers: IoMarkers { filesystem: false, network: false },
            resolved: None,
            local_cells: None,
        }
    }
}

impl Default for FunctionArguments {
    /// The configuration with nothing set.
    fn default() -> (r: FunctionArguments)
        ensures
            r == FunctionArguments::spec_default(),
    {
        FunctionArguments {
            io_markers: IoMarkers { filesystem: false, network: false },
            resolved: None,
            local_cells: None,
        }
    }
}

/// One annotation argument, as handed over by the frontend: the single
/// identifier of its path (empty if the path is not a single identifier),
/// whether it is a bare path, and its span.
#[derive(Debug, PartialEq, Eq)]
pub struct MetaArg {
    pub name: String,
    /// True for a bare path; false for a list or name-value form.
    pub path_only: bool,
    pub span: SynToken,
}

/// Mathematical model of one annotation argument.
#[verifier::ext_equal]
pub struct MetaArgV {
    pub name: Seq<char>,
    pub path_only: bool,
    pub span: SynToken,
}

impl View for MetaArg {
    type V = MetaArgV;

    open spec fn view(&self) -> MetaArgV {
        MetaArgV { name: self.name@, path_only: self.path_only, span: self.span }
    }
}

/// The model of an annotation argument list.
pub open spec fn metas_view(metas: Vec<MetaArg>) -> Seq<MetaArgV> {
    Seq::new(
        metas@.len(),
        |i: int|
            if 0 <= i < metas@.len() {
                metas@[i]@
            } else {
                arbitrary()
            },
    )
}

/// One parse step: folds one annotation argument into the configuration, or
/// fails with the span of an unrecognized token.
pub open spec fn spec_parse_step(acc: FunctionArguments, m: MetaArgV) -> Result<
    FunctionArguments,
    SynToken,
> {
    if m.path_only && m.name == "fs"@ {
        Ok(
            FunctionArguments {
                io_markers: IoMarkers { filesystem: true, ..acc.io_markers },
                ..acc
            },
        )
    } else if m.path_only && m.name == "network"@ {
        Ok(FunctionArguments { io_markers: IoMarkers { network: true, ..acc.io_markers }, ..acc })
    } else if m.path_only && m.name == "resolved"@ {
        Ok(FunctionArguments { resolved: Some(m.span), ..acc })
    } else if m.path_only && m.name == "local_cells"@ {
        Ok(FunctionArguments { local_cells: Some(m.span), resolved: Some(m.span), ..acc })
    } else {
        Err(m.span)
    }
}

/// Parses an annotation argument list: every argument is folded in order into
/// the default configuration; the first unrecognized token fails the parse
/// with its span.
pub open spec fn spec_parse(metas: Seq<MetaArgV>) -> Result<FunctionArguments, SynToken>
    decreases metas.len(),
{
    if metas.len() == 0 {
        Ok(FunctionArguments::spec_default())
    } else {
        match spec_parse(metas.drop_last()) {
            Ok(acc) => spec_parse_step(acc, metas.last()),
            Err(e) => Err(e),
        }
    }
}

/// Every successfully parsed configuration is well formed: `local_cells` set
/// implies `resolved` set.
pub proof fn lemma_parse_wf(metas: Seq<MetaArgV>)
    ensures
        spec_parse(metas) matches Ok(fa) ==> fa.wf(),
    decreases metas.len(),
{
    if metas.len() > 0 {
        lemma_parse_wf(metas.drop_last());
    }
}

/// Parses the annotation arguments of a task function.
///
/// Recognized flags are the IO markers `fs` and `network`, `resolved`, and
/// `local_cells` (which implies `resolved`); each must be a bare path. Any
/// other token is a hard parse error naming the accepted set, reported at the
/// offending argument.
#[verifier::loop_isolation(false)]
pub fn parse_function_arguments(metas: &Vec<MetaArg>) -> (r: Result<FunctionArguments, Diagnostic>)
    ensures
        r is Ok <==> spec_parse(metas_view(*metas)) is Ok,
        r matches Ok(fa) ==> Ok::<FunctionArguments, SynToken>(fa) == spec_parse(
            metas_view(*metas),
        ) && fa.wf(),
        r matches Err(d) ==> Err::<FunctionArguments, SynToken>(d.span) == spec_parse(
            metas_view(*metas),
        ) && d.message@ == spec_unexpected_option_message(),
{
    let ghost mv = metas_view(*metas);
    let mut acc = FunctionArguments::default();
    let mut i: usize = 0;
    proof {
        assert(mv.take(0) =~= Seq::<MetaArgV>::empty());
    }
    while i < metas.len()
        invariant
            i <= metas@.len(),
            Ok::<FunctionArguments, SynToken>(acc) == spec_parse(mv.take(i as int)),
        decreases metas@.len() - i,
    {
        let m = &metas[i];
        proof {
            assert(mv.take(i + 1).drop_last() =~= mv.take(i as int));
            assert(mv.take(i + 1).last() == mv[i as int]);
        }
        if m.path_only && name_is(&m.name, "fs") {
            acc = FunctionArguments {
                io_markers: IoMarkers { filesystem: true, ..acc.io_markers },
                ..acc
            };
        } else if m.path_only && name_is(&m.name, "network") {
            acc = FunctionArguments {
                io_markers: IoMarkers { network: true, ..acc.io_markers },
                ..acc
            };
        } else if m.path_only && name_is(&m.name, "resolved") {
            acc = FunctionArguments { resolved: Some(m.span), ..acc };
        } else if m.path_only && name_is(&m.name, "local_cells") {
            acc = FunctionArguments { local_cells: Some(m.span), resolved: Some(m.span), ..acc };
        } else {
            proof {
                lemma_parse_prefix_err(mv, i as int);
            }
            return Err(Diagnostic::unexpected_option(m.span));
        }
        i = i + 1;
    }
    proof {
        assert(mv.take(metas@.len() as int) =~= mv);
        lemma_parse_wf(mv);
    }
    Ok(acc)
}

/// Once a step fails, the whole parse fails with that step's span.
proof fn lemma_parse_prefix_err(mv: Seq<MetaArgV>, i: int)
    requires
        0 <= i < mv.len(),
        spec_parse(mv.take(i)) is Ok,
        spec_parse_step(spec_parse(mv.take(i))->Ok_0, mv[i]) is Err,
    ensures
        spec_parse(mv) == Err::<FunctionArguments, SynToken>(mv[i].span),
    decreases mv.len(),
{
    if i == mv.len() - 1 {
        assert(mv.drop_last() =~= mv.take(i));
        assert(mv.last() == mv[i]);
    } else {
        assert(mv.drop_last().take(i) =~= mv.take(i));
        assert(mv.drop_last()[i] == mv[i]);
        lemma_parse_prefix_err(mv.drop_last(), i);
    }
}

} // verus!
