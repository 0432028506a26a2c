use vstd::prelude::*;
use crate::data::Data;
use crate::tempo::Duracao;

verus! {

/// Os contadores de um dia vistos como números.
pub struct DiaView {
    pub dia: Data,
    pub sessoes_concluidas: nat,
    pub tempo_de_foco: int,
    pub pausas_interrompidas: nat,
}

/// Contadores de um único dia. `tempo_de_foco` soma o decorrido real em
/// Foco, inclusive o de uma sessão pulada pela metade.
#[derive(Debug, Clone, Copy, PartialEq, Eq)]
pub struct ContadoresDoDia {
    dia_de_referencia: Data,
    sessoes_concluidas: u32,
    tempo_de_foco: Duracao,
    pausas_interrompidas: u32,
}

impl View for ContadoresDoDia {
    type V = DiaView;

    closed spec fn view(&self) -> DiaView {
        DiaView {
            dia: self.dia_de_referencia,
            sessoes_concluidas: self.sessoes_concluidas as nat,
            tempo_de_foco: self.tempo_de_foco@,
            pausas_interrompidas: self.pausas_interrompidas as nat,
        }
    }
}

/// Um dia sem registro nenhum.
pub open spec fn dia_vazio(dia: Data) -> DiaView {
    DiaView { dia, sessoes_concluidas: 0, tempo_de_foco: 0, pausas_interrompidas: 0 }
}

/// O dia com `tempo` a mais de foco.
pub open spec fn com_foco_somado(d: DiaView, tempo: int) -> DiaView {
    DiaView { tempo_de_foco: d.tempo_de_foco + tempo, ..d }
}

/// O dia com uma sessão concluída a mais e `tempo` a mais de foco.
pub open spec fn com_sessao_concluida(d: DiaView, tempo: int) -> DiaView {
    DiaView { sessoes_concluidas: d.sessoes_concluidas + 1, ..com_foco_somado(d, tempo) }
}

/// O dia com uma pausa interrompida a mais.
pub open spec fn com_pausa_interrompida(d: DiaView) -> DiaView {
    DiaView { pausas_interrompidas: d.pausas_interrompidas + 1, ..d }
}

impl ContadoresDoDia {
    pub fn vazio(dia: Data) -> (r: Self)
        ensures
            r@ == dia_vazio(dia),
    {
        Self {
            dia_de_referencia: dia,
            sessoes_concluidas: 0,
            tempo_de_foco: Duracao::zero(),
            pausas_interrompidas: 0,
        }
    }

    /// Reconstrói a partir de valores persistidos.
    pub fn reconstruir(
        dia: Data,
        sessoes_concluidas: u32,
        tempo_de_foco: Duracao,
        pausas_interrompidas: u32,
    ) -> (r: Self)
        ensures
            r@ == (DiaView {
                dia,
                sessoes_concluidas: sessoes_concluidas as nat,
                tempo_de_foco: tempo_de_foco@,
                pausas_interrompidas: pausas_interrompidas as nat,
            }),
    {
        Self { dia_de_referencia: dia, sessoes_concluidas, tempo_de_foco, pausas_interrompidas }
    }

    pub fn dia_de_referencia(self) -> (r: Data)
        ensures
            r == self@.dia,
    {
        self.dia_de_referencia
    }

    pub fn sessoes_concluidas(self) -> (r: u32)
        ensures
            r == self@.sessoes_concluidas,
    {
        self.sessoes_concluidas
    }

    pub fn tempo_de_foco(self) -> (r: Duracao)
        ensures
            r@ == self@.tempo_de_foco,
    {
        self.tempo_de_foco
    }

    pub fn pausas_interrompidas(self) -> (r: u32)
        ensures
            r == self@.pausas_interrompidas,
    {
        self.pausas_interrompidas
    }

    pub fn com_foco_somado(self, tempo_decorrido: Duracao) -> (r: Self)
        requires
            self@.tempo_de_foco + tempo_decorrido@ <= i64::MAX,
        ensures
            r@ == com_foco_somado(self@, tempo_decorrido@),
    {
        Self { tempo_de_foco: self.tempo_de_foco.mais(tempo_decorrido), ..self }
    }

    pub fn com_sessao_concluida(self, tempo_decorrido: Duracao) -> (r: Self)
        requires
            self@.tempo_de_foco + tempo_decorrido@ <= i64::MAX,
            self@.sessoes_concluidas < u32::MAX,
        ensures
            r@ == com_sessao_concluida(self@, tempo_decorrido@),
    {
        let somado = self.com_foco_somado(tempo_decorrido);
        Self { sessoes_concluidas: self.sessoes_concluidas + 1, ..somado }
    }

    pub fn com_pausa_interrompida(self) -> (r: Self)
        requires
            self@.pausas_interrompidas < u32::MAX,
        ensures
            r@ == com_pausa_interrompida(self@),
    {
        Self { pausas_interrompidas: self.pausas_interrompidas + 1, ..self }
    }
}

} // verus!
