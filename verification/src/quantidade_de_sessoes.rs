use vstd::prelude::*;
use crate::texto::{anexar_decimal, decimal};

verus! {

/// Quantidade de sessões fora dos limites do produto.
#[derive(Debug, PartialEq, Eq, Structural)]
pub enum QuantidadeDeSessoesInvalida {
    ForaDoIntervalo { recebido: u8 },
}

impl QuantidadeDeSessoesInvalida {
    /// Mensagem legível do erro, nomeando o valor recebido.
    pub fn mensagem(&self) -> (r: String)
        ensures
            match self {
                QuantidadeDeSessoesInvalida::ForaDoIntervalo { recebido } => r@
                    == "quantidade de sessoes invalida: "@ + decimal(*recebido as nat)
                    + ", esperado entre 1 e 24"@,
            },
    {
        match self {
            QuantidadeDeSessoesInvalida::ForaDoIntervalo { recebido } => {
                let mut s = String::from_str("quantidade de sessoes invalida: ");
                anexar_decimal(&mut s, *recebido as u64);
                s.append(", esperado entre 1 e 24");
                s
            },
        }
    }
}

/// Limites da quantidade de sessões do ciclo: de 1 a 24.
pub open spec fn quantidade_valida(q: int) -> bool {
    1 <= q <= 24
}

/// Quantidade de sessões do ciclo, sempre entre 1 e 24.
#[derive(Debug, Clone, Copy, PartialEq, Eq, PartialOrd, Ord)]
pub struct QuantidadeDeSessoes(u8);

impl View for QuantidadeDeSessoes {
    type V = nat;

    closed spec fn view(&self) -> nat {
        self.0 as nat
    }
}

impl QuantidadeDeSessoes {
    #[verifier::type_invariant]
    spec fn dentro_dos_limites(self) -> bool {
        quantidade_valida(self.0 as int)
    }

    pub const MINIMA: u8 = 1;
    pub const MAXIMA: u8 = 24;

    pub fn nova(quantidade: u8) -> (r: Result<Self, QuantidadeDeSessoesInvalida>)
        ensures
            quantidade_valida(quantidade as int) <==> r is Ok,
            r matches Ok(q) ==> q@ == quantidade,
            r matches Err(e) ==> e == (QuantidadeDeSessoesInvalida::ForaDoIntervalo {
                recebido: quantidade,
            }),
    {
        if !(Self::MINIMA <= quantidade && quantidade <= Self::MAXIMA) {
            return Err(QuantidadeDeSessoesInvalida::ForaDoIntervalo { recebido: quantidade });
        }
        Ok(Self(quantidade))
    }

    pub fn valor(self) -> (r: u8)
        ensures
            r == self@,
            quantidade_valida(r as int),
    {
        proof {
            use_type_invariant(&self);
        }
        self.0
    }
}

} // verus!
