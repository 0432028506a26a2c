use vstd::prelude::*;
use crate::tempo::{cabe_em_i64, diferenca_saturada, Duracao, Instante};

verus! {

/// Estado de um timer, visto como números inteiros de milissegundos.
pub enum TimerView {
    Ocioso { restante: int },
    Correndo { prazo: int },
    Pausado { restante: int },
}

/// Estado do timer de uma etapa. O prazo é sempre absoluto: o restante é
/// `prazo - agora`, nunca um acumulador de ticks.
#[derive(Debug, Clone, Copy, PartialEq, Eq)]
pub enum EstadoTimer {
    Ocioso { restante: Duracao },
    Correndo { prazo: Instante },
    Pausado { restante: Duracao },
}

impl View for EstadoTimer {
    type V = TimerView;

    open spec fn view(&self) -> TimerView {
        match self {
            EstadoTimer::Ocioso { restante } => TimerView::Ocioso { restante: restante@ },
            EstadoTimer::Correndo { prazo } => TimerView::Correndo { prazo: prazo@ },
            EstadoTimer::Pausado { restante } => TimerView::Pausado { restante: restante@ },
        }
    }
}

/// Alternar a execução não estoura um `i64` neste instante.
pub open spec fn alternancia_cabe(t: TimerView, agora: int) -> bool {
    match t {
        TimerView::Ocioso { restante } => cabe_em_i64(agora + restante),
        TimerView::Pausado { restante } => cabe_em_i64(agora + restante),
        TimerView::Correndo { prazo } => cabe_em_i64(prazo - agora),
    }
}

/// Ocioso/Pausado passam a correr com prazo `agora + restante`; Correndo
/// pausa guardando o que faltava em `agora`.
pub open spec fn alternado(t: TimerView, agora: int) -> TimerView {
    match t {
        TimerView::Ocioso { restante } => TimerView::Correndo { prazo: agora + restante },
        TimerView::Pausado { restante } => TimerView::Correndo { prazo: agora + restante },
        TimerView::Correndo { prazo } => TimerView::Pausado {
            restante: diferenca_saturada(prazo, agora),
        },
    }
}

/// Ler o restante não estoura um `i64` neste instante.
pub open spec fn leitura_cabe(t: TimerView, agora: int) -> bool {
    match t {
        TimerView::Correndo { prazo } => cabe_em_i64(prazo - agora),
        _ => true,
    }
}

/// O que falta do timer em `agora`: guardado se parado, `prazo - agora`
/// (nunca negativo) se correndo.
pub open spec fn restante(t: TimerView, agora: int) -> int {
    match t {
        TimerView::Ocioso { restante } => restante,
        TimerView::Pausado { restante } => restante,
        TimerView::Correndo { prazo } => diferenca_saturada(prazo, agora),
    }
}

/// O timer venceu em `agora`: só quando corre e `agora` alcançou o prazo.
pub open spec fn vencido(t: TimerView, agora: int) -> bool {
    match t {
        TimerView::Correndo { prazo } => agora >= prazo,
        _ => false,
    }
}

/// O timer corre.
pub open spec fn correndo(t: TimerView) -> bool {
    t is Correndo
}

impl EstadoTimer {
    pub fn ocioso(restante: Duracao) -> (r: Self)
        ensures
            r@ == (TimerView::Ocioso { restante: restante@ }),
    {
        Self::Ocioso { restante }
    }

    pub fn alternar_execucao(self, agora: Instante) -> (r: Self)
        requires
            alternancia_cabe(self@, agora@),
        ensures
            r@ == alternado(self@, agora@),
    {
        match self {
            Self::Ocioso { restante } => Self::Correndo { prazo: agora.mais(restante) },
            Self::Pausado { restante } => Self::Correndo { prazo: agora.mais(restante) },
            Self::Correndo { prazo } => Self::Pausado { restante: prazo.decorrido_desde(agora) },
        }
    }

    pub fn reiniciar(duracao_cheia: Duracao) -> (r: Self)
        ensures
            r@ == (TimerView::Ocioso { restante: duracao_cheia@ }),
    {
        Self::Ocioso { restante: duracao_cheia }
    }

    pub fn restante_em(self, agora: Instante) -> (r: Duracao)
        requires
            leitura_cabe(self@, agora@),
        ensures
            r@ == restante(self@, agora@),
    {
        match self {
            Self::Ocioso { restante } => restante,
            Self::Pausado { restante } => restante,
            Self::Correndo { prazo } => prazo.decorrido_desde(agora),
        }
    }

    pub fn venceu_em(self, agora: Instante) -> (r: bool)
        ensures
            r == vencido(self@, agora@),
    {
        match self {
            Self::Correndo { prazo } => agora.epoca_ms() >= prazo.epoca_ms(),
            Self::Ocioso { .. } => false,
            Self::Pausado { .. } => false,
        }
    }

    pub fn rodando(self) -> (r: bool)
        ensures
            r == correndo(self@),
    {
        match self {
            Self::Correndo { .. } => true,
            _ => false,
        }
    }

    /// Prazo absoluto, se estiver correndo.
    pub fn prazo(self) -> (r: Option<Instante>)
        ensures
            match self@ {
                TimerView::Correndo { prazo } => r is Some && r->0@ == prazo,
                _ => r is None,
            },
    {
        match self {
            Self::Correndo { prazo } => Some(prazo),
            _ => None,
        }
    }
}

/// Pausar e retomar preserva o restante: um timer que corre até `prazo`,
/// pausado em `t1` guarda o que faltava (zero, se já tinha vencido) e,
/// retomado em qualquer `t2`, ganha o prazo `t2 + restante` e em `t2` tem
/// exatamente o mesmo restante que tinha em `t1`.
pub proof fn pausar_e_retomar_preserva_o_restante(prazo: int, t1: int, t2: int)
    ensures
        ({
            let correndo = TimerView::Correndo { prazo };
            let pausado = alternado(correndo, t1);
            let retomado = alternado(pausado, t2);
            &&& pausado == (TimerView::Pausado { restante: diferenca_saturada(prazo, t1) })
            &&& retomado == (TimerView::Correndo { prazo: t2 + diferenca_saturada(prazo, t1) })
            &&& restante(retomado, t2) == restante(correndo, t1)
        }),
{
}

/// O restante nunca é negativo, mesmo com o relógio andando para trás,
/// e um timer parado nunca vence.
pub proof fn restante_nunca_negativo(t: TimerView, agora: int)
    requires
        t is Ocioso ==> t->Ocioso_restante >= 0,
        t is Pausado ==> t->Pausado_restante >= 0,
    ensures
        restante(t, agora) >= 0,
        !correndo(t) ==> !vencido(t, agora),
{
}

} // verus!
