use crate::protocol::AstError;
use vstd::prelude::*;

verus! {

/// A comment that suppresses a finding of the type checker: either it
/// ignores the finding for good or it marks it as something to fix.
#[derive(Debug, Clone, Copy, PartialEq, Eq, Structural)]
pub struct Fixme {
    pub is_ignore: bool,
}

/// One form of a module's converted syntax tree, as far as the statistics
/// look at it.
#[derive(Debug, PartialEq, Eq, Clone)]
pub enum ExternalForm {
    /// The module's metadata, with its suppression comments.
    ElpMetadata { fixmes: Vec<Fixme> },
    /// An attribute that switches the type checker off for a function.
    EqwalizerNowarnFunction,
    /// Any other form.
    Other,
}

/// Counts of the suppression annotations found in one module.
#[derive(Debug, Clone, Copy, PartialEq, Eq, Structural)]
pub struct EqwalizerStats {
    pub ignores: u32,
    pub fixmes: u32,
    pub nowarn: u32,
}

/// How many of the first `n` comments ignore a finding.
pub open spec fn ignores_among(fixmes: Seq<Fixme>, n: nat) -> nat
    decreases n,
{
    if n == 0 || n > fixmes.len() {
        0
    } else {
        ignores_among(fixmes, (n - 1) as nat) + if fixmes[n - 1].is_ignore {
            1nat
        } else {
            0nat
        }
    }
}

/// The comments of a form that ignore a finding.
pub open spec fn form_ignores(form: ExternalForm) -> nat {
    match form {
        ExternalForm::ElpMetadata { fixmes } => ignores_among(fixmes@, fixmes@.len()),
        _ => 0,
    }
}

/// The comments of a form that mark a finding as something to fix.
pub open spec fn form_fixmes(form: ExternalForm) -> nat {
    match form {
        ExternalForm::ElpMetadata { fixmes } => (fixmes@.len() - ignores_among(
            fixmes@,
            fixmes@.len(),
        )) as nat,
        _ => 0,
    }
}

/// One for a form that switches the type checker off for a function.
pub open spec fn form_nowarn(form: ExternalForm) -> nat {
    match form {
        ExternalForm::EqwalizerNowarnFunction => 1,
        _ => 0,
    }
}

/// The sum of `count` over the first `n` forms.
pub open spec fn total(forms: Seq<ExternalForm>, n: nat, count: spec_fn(ExternalForm) -> nat) -> nat
    decreases n,
{
    if n == 0 || n > forms.len() {
        0
    } else {
        total(forms, (n - 1) as nat, count) + count(forms[n - 1])
    }
}

/// All comments of a module that ignore a finding.
pub open spec fn count_ignores(forms: Seq<ExternalForm>) -> nat {
    total(forms, forms.len(), |form: ExternalForm| form_ignores(form))
}

/// All comments of a module that mark a finding as something to fix.
pub open spec fn count_fixmes(forms: Seq<ExternalForm>) -> nat {
    total(forms, forms.len(), |form: ExternalForm| form_fixmes(form))
}

/// All forms of a module that switch the type checker off for a function.
pub open spec fn count_nowarn(forms: Seq<ExternalForm>) -> nat {
    total(forms, forms.len(), |form: ExternalForm| form_nowarn(form))
}

/// The statistics of a module: none where its syntax tree cannot be had or
/// holds no suppression at all, else the three counts.
pub open spec fn stats_of(ast: Result<Vec<ExternalForm>, AstError>) -> Option<EqwalizerStats> {
    match ast {
        Ok(forms) => if count_ignores(forms@) + count_fixmes(forms@) + count_nowarn(forms@) == 0 {
            None
        } else {
            Some(
                EqwalizerStats {
                    ignores: count_ignores(forms@) as u32,
                    fixmes: count_fixmes(forms@) as u32,
                    nowarn: count_nowarn(forms@) as u32,
                },
            )
        },
        Err(_) => None,
    }
}

/// No more than `n` of the first `n` comments ignore a finding, and a longer
/// prefix holds no fewer of them.
proof fn lemma_ignores_among(fixmes: Seq<Fixme>, m: nat, n: nat)
    requires
        m <= n <= fixmes.len(),
    ensures
        ignores_among(fixmes, m) <= ignores_among(fixmes, n),
        ignores_among(fixmes, n) <= n,
        m - ignores_among(fixmes, m) <= n - ignores_among(fixmes, n),
    decreases n,
{
    if n > 0 {
        if m < n {
            lemma_ignores_among(fixmes, m, (n - 1) as nat);
        } else {
            lemma_ignores_among(fixmes, (n - 1) as nat, (n - 1) as nat);
        }
    }
}

/// A longer prefix of the forms sums to no less.
proof fn lemma_total_grows(
    forms: Seq<ExternalForm>,
    m: nat,
    n: nat,
    count: spec_fn(ExternalForm) -> nat,
)
    requires
        m <= n <= forms.len(),
    ensures
        total(forms, m, count) <= total(forms, n, count),
    decreases n,
{
    if m < n {
        lemma_total_grows(forms, m, (n - 1) as nat, count);
    }
}

/// The counts of the suppression annotations of a module, given the answer
/// to the query for its converted syntax tree.
pub fn compute_eqwalizer_stats(ast: &Result<Vec<ExternalForm>, AstError>) -> (stats: Option<
    EqwalizerStats,
>)
    requires
        ast matches Ok(forms) ==> count_ignores(forms@) <= u32::MAX && count_fixmes(forms@)
            <= u32::MAX && count_nowarn(forms@) <= u32::MAX,
    ensures
        stats == stats_of(*ast),
        stats is None <==> (ast matches Ok(forms) ==> count_ignores(forms@) + count_fixmes(forms@)
            + count_nowarn(forms@) == 0),
{
    let forms = match ast {
        Ok(forms) => forms,
        Err(_) => {
            return None;
        },
    };
    let ghost by_ignores = |form: ExternalForm| form_ignores(form);
    let ghost by_fixmes = |form: ExternalForm| form_fixmes(form);
    let ghost by_nowarn = |form: ExternalForm| form_nowarn(form);
    let mut fixmes: u32 = 0;
    let mut ignores: u32 = 0;
    let mut nowarn: u32 = 0;
    let mut i: usize = 0;
    while i < forms.len()
        invariant
            i <= forms.len(),
            ignores == total(forms@, i as nat, by_ignores),
            fixmes == total(forms@, i as nat, by_fixmes),
            nowarn == total(forms@, i as nat, by_nowarn),
            total(forms@, forms@.len(), by_ignores) <= u32::MAX,
            total(forms@, forms@.len(), by_fixmes) <= u32::MAX,
            total(forms@, forms@.len(), by_nowarn) <= u32::MAX,
            by_ignores == |form: ExternalForm| form_ignores(form),
            by_fixmes == |form: ExternalForm| form_fixmes(form),
            by_nowarn == |form: ExternalForm| form_nowarn(form),
        decreases forms.len() - i,
    {
        proof {
            lemma_total_grows(forms@, (i + 1) as nat, forms@.len(), by_ignores);
            lemma_total_grows(forms@, (i + 1) as nat, forms@.len(), by_fixmes);
            lemma_total_grows(forms@, (i + 1) as nat, forms@.len(), by_nowarn);
        }
        match &forms[i] {
            ExternalForm::ElpMetadata { fixmes: marks } => {
                let ghost ignores_before = ignores;
                let ghost fixmes_before = fixmes;
                let mut j: usize = 0;
                while j < marks.len()
                    invariant
                        j <= marks.len(),
                        ignores == ignores_before + ignores_among(marks@, j as nat),
                        fixmes == fixmes_before + j - ignores_among(marks@, j as nat),
                        ignores_before + ignores_among(marks@, marks@.len()) <= u32::MAX,
                        fixmes_before + marks@.len() - ignores_among(marks@, marks@.len())
                            <= u32::MAX,
                    decreases marks.len() - j,
                {
                    proof {
                        lemma_ignores_among(marks@, (j + 1) as nat, marks@.len());
                        lemma_ignores_among(marks@, j as nat, (j + 1) as nat);
                    }
                    if marks[j].is_ignore {
                        ignores += 1;
                    } else {
                        fixmes += 1;
                    }
                    j += 1;
                }
                proof {
                    lemma_ignores_among(marks@, marks@.len(), marks@.len());
                }
            },
            ExternalForm::EqwalizerNowarnFunction => {
                nowarn += 1;
            },
            ExternalForm::Other => {},
        }
        i += 1;
    }
    if fixmes == 0 && ignores == 0 && nowarn == 0 {
        return None;
    }
    Some(EqwalizerStats { fixmes, ignores, nowarn })
}

} // verus!
