use vstd::prelude::*;

verus! {

/// Fonte das durações de foco/pausa usadas pelo ciclo: globais (um par para
/// todas as sessões) ou individuais (um par por sessão).
#[derive(Debug, Clone, Copy, PartialEq, Eq, Structural)]
pub enum ModoDeDuracao {
    Global,
    Individual,
}

} // verus!
