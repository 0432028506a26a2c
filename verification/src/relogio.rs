use vstd::prelude::*;
use crate::data::Data;
use crate::tempo::Instante;

verus! {

/// Fonte de tempo do domínio: o domínio nunca lê o relógio do sistema;
/// quem precisa da hora recebe um `Relogio` ou o `agora` por parâmetro.
pub trait Relogio: Send + Sync {
    fn agora(&self) -> Instante;

    /// Data de calendário de hoje no fuso local, resolvida pela implementação.
    fn hoje(&self) -> Data;
}

} // verus!
