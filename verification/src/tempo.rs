use vstd::prelude::*;
use crate::texto::{anexar_decimal_com_sinal, decimal_com_sinal};

verus! {

/// Verdadeiro quando `x` cabe num `i64`.
pub open spec fn cabe_em_i64(x: int) -> bool {
    i64::MIN <= x <= i64::MAX
}

/// Erro de construção de uma [`Duracao`] a partir de milissegundos.
#[derive(Debug, PartialEq, Eq)]
pub enum DuracaoInvalida {
    Negativa { recebido: i64 },
}

impl DuracaoInvalida {
    /// Mensagem legível do erro, nomeando o valor recebido.
    pub fn mensagem(&self) -> (r: String)
        ensures
            match self {
                DuracaoInvalida::Negativa { recebido } => r@ == "duracao negativa: "@
                    + decimal_com_sinal(*recebido as int) + "ms, esperado >= 0"@,
            },
    {
        match self {
            DuracaoInvalida::Negativa { recebido } => {
                let mut s = String::from_str("duracao negativa: ");
                anexar_decimal_com_sinal(&mut s, *recebido);
                s.append("ms, esperado >= 0");
                s
            },
        }
    }
}

/// Instante absoluto em milissegundos desde a época Unix.
#[derive(Debug, Clone, Copy, PartialEq, Eq, PartialOrd, Ord)]
pub struct Instante(i64);

impl View for Instante {
    type V = int;

    closed spec fn view(&self) -> int {
        self.0 as int
    }
}

/// Intervalo não negativo, em milissegundos.
#[derive(Debug, Clone, Copy, PartialEq, Eq, PartialOrd, Ord)]
pub struct Duracao(i64);

impl View for Duracao {
    type V = int;

    closed spec fn view(&self) -> int {
        self.0 as int
    }
}

impl Duracao {
    #[verifier::type_invariant]
    spec fn nao_negativa(self) -> bool {
        self.0 >= 0
    }
}

/// Diferença saturando em zero: `a - b` se positiva, senão zero.
pub open spec fn diferenca_saturada(a: int, b: int) -> int {
    if a - b < 0 { 0 } else { a - b }
}

/// Todo instante cabe num `i64`, o tipo em que é guardado e exposto.
pub proof fn instante_cabe_em_i64(instante: Instante)
    ensures
        cabe_em_i64(instante@),
{
}

/// Toda duração cabe num `i64`, o tipo em que é guardada e exposta.
pub proof fn duracao_cabe_em_i64(duracao: Duracao)
    ensures
        cabe_em_i64(duracao@),
{
}

/// O decorrido entre dois instantes é a diferença, ou zero com o relógio
/// andando para trás; nunca é negativo, e de `inicio` até `inicio + d` é `d`.
pub proof fn decorrido_e_o_intervalo(fim: int, inicio: int, d: int)
    ensures
        diferenca_saturada(fim, inicio) >= 0,
        fim >= inicio ==> diferenca_saturada(fim, inicio) == fim - inicio,
        fim < inicio ==> diferenca_saturada(fim, inicio) == 0,
        d >= 0 ==> diferenca_saturada(inicio + d, inicio) == d,
{
}

impl Instante {
    pub fn desde_epoca_ms(milissegundos: i64) -> (r: Self)
        ensures r@ == milissegundos,
    {
        Self(milissegundos)
    }

    pub fn epoca_ms(self) -> (r: i64)
        ensures r == self@,
    {
        self.0
    }

    pub fn mais(self, duracao: Duracao) -> (r: Self)
        requires cabe_em_i64(self@ + duracao@),
        ensures r@ == self@ + duracao@,
    {
        Self(self.0 + duracao.0)
    }

    /// Quanto passou de `anterior` até `self`; relógio que anda para trás
    /// dá zero.
    pub fn decorrido_desde(self, anterior: Self) -> (r: Duracao)
        requires cabe_em_i64(self@ - anterior@),
        ensures r@ == diferenca_saturada(self@, anterior@),
    {
        let bruto = self.0 - anterior.0;
        Duracao(if bruto < 0 { 0 } else { bruto })
    }
}

impl Duracao {
    /// Zero milissegundos.
    pub fn zero() -> (r: Self)
        ensures r@ == 0,
    {
        Duracao(0)
    }

    pub fn de_minutos(minutos: u16) -> (r: Self)
        ensures r@ == minutos * 60_000,
    {
        Self(minutos as i64 * 60_000)
    }

    pub fn de_ms(milissegundos: i64) -> (r: Result<Self, DuracaoInvalida>)
        ensures
            milissegundos >= 0 <==> r is Ok,
            r matches Ok(d) ==> d@ == milissegundos,
            r matches Err(e) ==> e == (DuracaoInvalida::Negativa { recebido: milissegundos }),
    {
        if milissegundos < 0 {
            return Err(DuracaoInvalida::Negativa { recebido: milissegundos });
        }
        Ok(Self(milissegundos))
    }

    pub fn em_ms(self) -> (r: i64)
        ensures
            r == self@,
            r >= 0,
    {
        proof {
            use_type_invariant(&self);
        }
        self.0
    }

    pub fn esgotada(self) -> (r: bool)
        ensures r == (self@ == 0),
    {
        self.0 == 0
    }

    pub fn mais(self, outra: Self) -> (r: Self)
        requires self@ + outra@ <= i64::MAX,
        ensures r@ == self@ + outra@,
    {
        proof {
            use_type_invariant(&self);
            use_type_invariant(&outra);
        }
        Self(self.0 + outra.0)
    }

    /// Subtração saturando em zero.
    pub fn menos(self, outra: Self) -> (r: Self)
        ensures r@ == diferenca_saturada(self@, outra@),
    {
        proof {
            use_type_invariant(&self);
            use_type_invariant(&outra);
        }
        let diferenca = self.0 - outra.0;
        Self(if diferenca < 0 { 0 } else { diferenca })
    }
}

} // verus!
