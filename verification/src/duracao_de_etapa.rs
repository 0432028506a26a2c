use vstd::prelude::*;
use crate::tempo::Duracao;
use crate::texto::{anexar_decimal, decimal};

verus! {

/// Duração de etapa fora dos limites do produto.
#[derive(Debug, PartialEq, Eq, Structural)]
pub enum DuracaoDeEtapaInvalida {
    Foco { recebido: u16 },
    Pausa { recebido: u16 },
}

impl DuracaoDeEtapaInvalida {
    /// Mensagem legível do erro, nomeando o valor recebido.
    pub fn mensagem(&self) -> (r: String)
        ensures
            match self {
                DuracaoDeEtapaInvalida::Foco { recebido } => r@ == "duracao de foco invalida: "@
                    + decimal(*recebido as nat)
                    + "min, esperado entre 5 e 180 em passos de 5"@,
                DuracaoDeEtapaInvalida::Pausa { recebido } => r@
                    == "duracao de pausa invalida: "@ + decimal(*recebido as nat)
                    + "min, esperado entre 1 e 60"@,
            },
    {
        match self {
            DuracaoDeEtapaInvalida::Foco { recebido } => {
                let mut s = String::from_str("duracao de foco invalida: ");
                anexar_decimal(&mut s, *recebido as u64);
                s.append("min, esperado entre 5 e 180 em passos de 5");
                s
            },
            DuracaoDeEtapaInvalida::Pausa { recebido } => {
                let mut s = String::from_str("duracao de pausa invalida: ");
                anexar_decimal(&mut s, *recebido as u64);
                s.append("min, esperado entre 1 e 60");
                s
            },
        }
    }
}

/// Foco válido: de 5 a 180 minutos, em passos de 5.
pub open spec fn minutos_de_foco_validos(minutos: int) -> bool {
    5 <= minutos <= 180 && minutos % 5 == 0
}

/// Pausa válida: de 1 a 60 minutos.
pub open spec fn minutos_de_pausa_validos(minutos: int) -> bool {
    1 <= minutos <= 60
}

impl Duracao {
    pub fn de_minutos_de_foco(minutos: u16) -> (r: Result<Self, DuracaoDeEtapaInvalida>)
        ensures
            minutos_de_foco_validos(minutos as int) <==> r is Ok,
            (5 <= minutos <= 180 && minutos % 5 == 0) <==> r is Ok,
            r matches Ok(d) ==> d@ == minutos * 60_000,
            r matches Err(e) ==> e == (DuracaoDeEtapaInvalida::Foco { recebido: minutos }),
    {
        let dentro_do_intervalo = 5 <= minutos && minutos <= 180;
        let no_passo = minutos % 5 == 0;
        if !dentro_do_intervalo || !no_passo {
            return Err(DuracaoDeEtapaInvalida::Foco { recebido: minutos });
        }
        Ok(Self::de_minutos(minutos))
    }

    pub fn de_minutos_de_pausa(minutos: u16) -> (r: Result<Self, DuracaoDeEtapaInvalida>)
        ensures
            minutos_de_pausa_validos(minutos as int) <==> r is Ok,
            (1 <= minutos <= 60) <==> r is Ok,
            r matches Ok(d) ==> d@ == minutos * 60_000,
            r matches Err(e) ==> e == (DuracaoDeEtapaInvalida::Pausa { recebido: minutos }),
    {
        if !(1 <= minutos && minutos <= 60) {
            return Err(DuracaoDeEtapaInvalida::Pausa { recebido: minutos });
        }
        Ok(Self::de_minutos(minutos))
    }
}

/// Toda pausa de 1 a 60 minutos inteiros é válida, sem passo; nenhuma fora
/// disso. O foco vale de 5 a 180 minutos, em passos de 5.
pub proof fn pausa_vale_todo_minuto_de_um_a_sessenta(minutos: int)
    ensures
        minutos_de_pausa_validos(minutos) <==> (1 <= minutos && minutos <= 60),
        minutos_de_foco_validos(minutos) <==> (5 <= minutos && minutos <= 180 && minutos % 5 == 0),
{
}

} // verus!
