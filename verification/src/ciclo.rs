use vstd::prelude::*;
use crate::quantidade_de_sessoes::QuantidadeDeSessoes;

verus! {

/// Número da sessão seguinte a `atual` num ciclo de `total` sessões:
/// `(atual % total) + 1`, voltando à primeira depois da última.
pub open spec fn sessao_seguinte(atual: nat, total: nat) -> nat {
    ((atual % total) + 1) as nat
}

/// Número da sessão dentro do ciclo, contado a partir de 1.
#[derive(Debug, Clone, Copy, PartialEq, Eq, Structural)]
pub struct NumeroDeSessao(u8);

impl View for NumeroDeSessao {
    type V = nat;

    closed spec fn view(&self) -> nat {
        self.0 as nat
    }
}

impl NumeroDeSessao {
    pub fn primeira() -> (r: Self)
        ensures
            r@ == 1,
    {
        Self(1)
    }

    /// Número cru, sem validar contra nenhum total.
    pub fn de(valor: u8) -> (r: Self)
        ensures
            r@ == valor,
    {
        Self(valor)
    }

    pub fn valor(self) -> (r: u8)
        ensures
            r == self@,
    {
        self.0
    }

    pub fn proxima(self, total: QuantidadeDeSessoes) -> (r: Self)
        ensures
            r@ == sessao_seguinte(self@, total@),
            1 <= r@ <= total@,
    {
        let t = total.valor();
        Self((self.0 % t) + 1)
    }
}

/// A sessão seguinte está sempre entre 1 e o total, e percorrer `total`
/// vezes a partir da primeira volta à primeira.
pub proof fn sessao_seguinte_circular(atual: nat, total: nat)
    requires
        total >= 1,
    ensures
        1 <= sessao_seguinte(atual, total) <= total,
        atual == total ==> sessao_seguinte(atual, total) == 1,
        1 <= atual < total ==> sessao_seguinte(atual, total) == atual + 1,
{
    if atual < total {
        vstd::arithmetic::div_mod::lemma_small_mod(atual, total);
    }
    vstd::arithmetic::div_mod::lemma_mod_self_0(total as int);
}

} // verus!
