use vstd::prelude::*;
use crate::atividade::{atividade_vazia, Atividade, AtividadeView};
use crate::ciclo::NumeroDeSessao;
use crate::ciclo_em_execucao::{com_foco, com_pausa, CicloEmExecucao, CicloView};
use crate::etapa::Etapa;
use crate::modo_de_duracao::ModoDeDuracao;
use crate::quantidade_de_sessoes::QuantidadeDeSessoes;
use crate::sessao::{sessao_nova, Sessao, SessaoView};
use crate::tempo::{cabe_em_i64, Duracao, Instante};
use crate::texto::{anexar_decimal, decimal};
use crate::timer::correndo;

verus! {

/// Sessão pedida fora do plano individual.
#[derive(Debug, PartialEq, Eq, Structural)]
pub enum SessaoForaDoPlano {
    ForaDoIntervalo { recebido: u8, total: u8 },
}

impl SessaoForaDoPlano {
    /// Mensagem legível do erro, nomeando a sessão e o total.
    pub fn mensagem(&self) -> (r: String)
        ensures
            match self {
                SessaoForaDoPlano::ForaDoIntervalo { recebido, total } => r@
                    == "sessao fora do plano: "@ + decimal(*recebido as nat)
                    + ", esperado entre 1 e "@ + decimal(*total as nat),
            },
    {
        match self {
            SessaoForaDoPlano::ForaDoIntervalo { recebido, total } => {
                let mut s = String::from_str("sessao fora do plano: ");
                anexar_decimal(&mut s, *recebido as u64);
                s.append(", esperado entre 1 e ");
                anexar_decimal(&mut s, *total as u64);
                s
            },
        }
    }
}

/// O plano visto como valores.
pub struct PlanoView {
    pub modo: ModoDeDuracao,
    pub duracao_global_foco: int,
    pub duracao_global_pausa: int,
    pub atividade_global: AtividadeView,
    pub plano_individual: Seq<SessaoView>,
}

/// Visão de uma sequência de sessões.
pub open spec fn visao_das_sessoes(s: Seq<Sessao>) -> Seq<SessaoView> {
    s.map_values(|x: Sessao| x@)
}

/// Total de sessões como o plano o informa: o tamanho do plano individual
/// num `u8`.
pub open spec fn total_do_plano(p: PlanoView) -> nat {
    (p.plano_individual.len() % 256) as nat
}

/// Um plano novo: modo Global, atividade vazia e `total` sessões com as
/// durações globais.
pub open spec fn plano_novo(total: nat, foco: int, pausa: int) -> PlanoView {
    PlanoView {
        modo: ModoDeDuracao::Global,
        duracao_global_foco: foco,
        duracao_global_pausa: pausa,
        atividade_global: atividade_vazia(),
        plano_individual: Seq::new(total, |i: int| sessao_nova(foco, pausa)),
    }
}

/// A sessão `n` (contada a partir de 1) existe no plano individual.
pub open spec fn sessao_no_plano(p: PlanoView, n: nat) -> bool {
    1 <= n <= p.plano_individual.len()
}

/// Durações de foco e pausa que `sessao` usa no `modo` dado: as globais, ou
/// as da entrada correspondente do plano individual.
pub open spec fn duracoes_para(p: PlanoView, modo: ModoDeDuracao, sessao: nat) -> (int, int) {
    match modo {
        ModoDeDuracao::Global => (p.duracao_global_foco, p.duracao_global_pausa),
        ModoDeDuracao::Individual => (
            p.plano_individual[sessao - 1].foco,
            p.plano_individual[sessao - 1].pausa,
        ),
    }
}

/// Atividade que `sessao` usa no modo ativo.
pub open spec fn atividade_ativa_para(p: PlanoView, sessao: nat) -> AtividadeView {
    match p.modo {
        ModoDeDuracao::Global => p.atividade_global,
        ModoDeDuracao::Individual => p.plano_individual[sessao - 1].atividade,
    }
}

/// A sessão consultada existe quando o modo a consulta.
pub open spec fn consulta_valida(p: PlanoView, modo: ModoDeDuracao, sessao: nat) -> bool {
    modo == ModoDeDuracao::Individual ==> sessao_no_plano(p, sessao)
}

/// Realinhar o ciclo a estas durações não estoura um `i64`.
pub open spec fn realinhamento_cabe(c: CicloView, foco: int, pausa: int, agora: int) -> bool {
    correndo(c.timer) ==> cabe_em_i64(agora + foco) && cabe_em_i64(agora + pausa)
}

/// O ciclo realinhado às durações de foco e pausa dadas.
pub open spec fn realinhado(c: CicloView, duracoes: (int, int), agora: int) -> CicloView {
    com_pausa(com_foco(c, duracoes.0, agora), duracoes.1, agora)
}

/// O plano individual com `n` sessões: truncado, ou estendido com sessões
/// novas nas durações globais vigentes.
pub open spec fn individual_redimensionado(p: PlanoView, n: nat) -> Seq<SessaoView> {
    if n <= p.plano_individual.len() {
        p.plano_individual.take(n as int)
    } else {
        p.plano_individual + Seq::new(
            (n - p.plano_individual.len()) as nat,
            |i: int| sessao_nova(p.duracao_global_foco, p.duracao_global_pausa),
        )
    }
}

/// A sessão em curso, limitada ao novo total.
pub open spec fn sessao_clampada(atual: nat, total: nat) -> nat {
    if atual > total { total } else { atual }
}

/// O plano com outro modo.
pub open spec fn com_modo(p: PlanoView, modo: ModoDeDuracao) -> PlanoView {
    PlanoView { modo, ..p }
}

/// Plano de durações do ciclo: as durações globais e as por sessão
/// coexistem sempre; o modo escolhe qual conjunto está ativo.
#[derive(Debug, PartialEq, Eq)]
pub struct PlanoDoCiclo {
    modo: ModoDeDuracao,
    duracao_global_foco: Duracao,
    duracao_global_pausa: Duracao,
    atividade_global: Atividade,
    plano_individual: Vec<Sessao>,
}

impl View for PlanoDoCiclo {
    type V = PlanoView;

    closed spec fn view(&self) -> PlanoView {
        PlanoView {
            modo: self.modo,
            duracao_global_foco: self.duracao_global_foco@,
            duracao_global_pausa: self.duracao_global_pausa@,
            atividade_global: self.atividade_global@,
            plano_individual: visao_das_sessoes(self.plano_individual@),
        }
    }
}

impl Clone for PlanoDoCiclo {
    fn clone(&self) -> (r: Self)
        ensures
            r@ == self@,
    {
        let mut copia: Vec<Sessao> = Vec::new();
        let n = self.plano_individual.len();
        let mut i: usize = 0;
        while i < n
            invariant
                n == self.plano_individual@.len(),
                i <= n,
                copia@.len() == i,
                visao_das_sessoes(copia@) == visao_das_sessoes(self.plano_individual@).take(
                    i as int,
                ),
            decreases n - i,
        {
            copia.push(self.plano_individual[i].clone());
            i = i + 1;
            assert(visao_das_sessoes(copia@) =~= visao_das_sessoes(self.plano_individual@).take(
                i as int,
            ));
        }
        assert(visao_das_sessoes(self.plano_individual@).take(n as int) =~= visao_das_sessoes(
            self.plano_individual@,
        ));
        Self {
            modo: self.modo,
            duracao_global_foco: self.duracao_global_foco,
            duracao_global_pausa: self.duracao_global_pausa,
            atividade_global: self.atividade_global.clone(),
            plano_individual: copia,
        }
    }
}

fn indice_de(sessao: NumeroDeSessao) -> (r: usize)
    requires
        sessao@ >= 1,
    ensures
        r == sessao@ - 1,
{
    (sessao.valor() - 1) as usize
}

fn clampar_sessao(atual: NumeroDeSessao, total: QuantidadeDeSessoes) -> (r: NumeroDeSessao)
    ensures
        r@ == sessao_clampada(atual@, total@),
{
    if atual.valor() > total.valor() {
        NumeroDeSessao::de(total.valor())
    } else {
        atual
    }
}

impl PlanoDoCiclo {
    pub fn novo(
        total_sessoes: QuantidadeDeSessoes,
        duracao_global_foco: Duracao,
        duracao_global_pausa: Duracao,
    ) -> (r: Self)
        ensures
            r@ == plano_novo(total_sessoes@, duracao_global_foco@, duracao_global_pausa@),
    {
        let total = total_sessoes.valor() as usize;
        let mut plano_individual: Vec<Sessao> = Vec::new();
        let mut i: usize = 0;
        while i < total
            invariant
                i <= total,
                total == total_sessoes@,
                plano_individual@.len() == i,
                forall|k: int|
                    0 <= k < i ==> (#[trigger] plano_individual@[k])@ == sessao_nova(
                        duracao_global_foco@,
                        duracao_global_pausa@,
                    ),
            decreases total - i,
        {
            plano_individual.push(Sessao::nova(duracao_global_foco, duracao_global_pausa));
            i = i + 1;
        }
        let r = Self {
            modo: ModoDeDuracao::Global,
            duracao_global_foco,
            duracao_global_pausa,
            atividade_global: Atividade::vazia(),
            plano_individual,
        };
        assert(r@.plano_individual =~= plano_novo(
            total_sessoes@,
            duracao_global_foco@,
            duracao_global_pausa@,
        ).plano_individual);
        r
    }

    /// Reconstrói a partir de valores persistidos, sem validar nada.
    pub fn reconstruir(
        modo: ModoDeDuracao,
        duracao_global_foco: Duracao,
        duracao_global_pausa: Duracao,
        atividade_global: Atividade,
        plano_individual: Vec<Sessao>,
    ) -> (r: Self)
        ensures
            r@ == (PlanoView {
                modo,
                duracao_global_foco: duracao_global_foco@,
                duracao_global_pausa: duracao_global_pausa@,
                atividade_global: atividade_global@,
                plano_individual: visao_das_sessoes(plano_individual@),
            }),
    {
        Self { modo, duracao_global_foco, duracao_global_pausa, atividade_global, plano_individual }
    }

    pub fn modo(&self) -> (r: ModoDeDuracao)
        ensures
            r == self@.modo,
    {
        self.modo
    }

    pub fn duracao_global_foco(&self) -> (r: Duracao)
        ensures
            r@ == self@.duracao_global_foco,
    {
        self.duracao_global_foco
    }

    pub fn duracao_global_pausa(&self) -> (r: Duracao)
        ensures
            r@ == self@.duracao_global_pausa,
    {
        self.duracao_global_pausa
    }

    pub fn atividade_global(&self) -> (r: &Atividade)
        ensures
            r@ == self@.atividade_global,
    {
        &self.atividade_global
    }

    pub fn plano_individual(&self) -> (r: &[Sessao])
        ensures
            visao_das_sessoes(r@) == self@.plano_individual,
    {
        self.plano_individual.as_slice()
    }

    pub fn total_sessoes(&self) -> (r: u8)
        ensures
            r == total_do_plano(self@),
    {
        (self.plano_individual.len() % 256) as u8
    }

    /// Durações que `sessao` usaria agora, no modo ativo.
    pub fn duracoes_ativas_para(&self, sessao: NumeroDeSessao) -> (r: (Duracao, Duracao))
        requires
            consulta_valida(self@, self@.modo, sessao@),
        ensures
            (r.0@, r.1@) == duracoes_para(self@, self@.modo, sessao@),
    {
        self.duracoes_para(self.modo, sessao)
    }

    /// Atividade que `sessao` usaria agora, no modo ativo.
    pub fn atividade_ativa_para(&self, sessao: NumeroDeSessao) -> (r: &Atividade)
        requires
            consulta_valida(self@, self@.modo, sessao@),
        ensures
            r@ == atividade_ativa_para(self@, sessao@),
    {
        match self.modo {
            ModoDeDuracao::Global => &self.atividade_global,
            ModoDeDuracao::Individual => self.plano_individual[indice_de(sessao)].atividade(),
        }
    }

    fn duracoes_para(&self, modo: ModoDeDuracao, sessao: NumeroDeSessao) -> (r: (Duracao, Duracao))
        requires
            consulta_valida(self@, modo, sessao@),
        ensures
            (r.0@, r.1@) == duracoes_para(self@, modo, sessao@),
    {
        match modo {
            ModoDeDuracao::Global => (self.duracao_global_foco, self.duracao_global_pausa),
            ModoDeDuracao::Individual => {
                let sessao = &self.plano_individual[indice_de(sessao)];
                (sessao.foco(), sessao.pausa())
            },
        }
    }

    /// Trunca ou estende o plano individual para `nova_quantidade` sessões e
    /// limita a sessão em curso ao novo total; nunca toca no timer.
    pub fn redimensionar(self, nova_quantidade: QuantidadeDeSessoes, ciclo: CicloEmExecucao) -> (r: (
        Self,
        CicloEmExecucao,
    ))
        ensures
            r.0@ == (PlanoView {
                plano_individual: individual_redimensionado(self@, nova_quantidade@),
                ..self@
            }),
            r.1@ == (CicloView {
                total: nova_quantidade@,
                sessao: sessao_clampada(ciclo@.sessao, nova_quantidade@),
                ..ciclo@
            }),
    {
        let mut plano = self;
        let ghost antes = plano@;
        let n = nova_quantidade.valor() as usize;
        let atual = plano.plano_individual.len();
        if n <= atual {
            plano.plano_individual.truncate(n);
            assert(plano@.plano_individual =~= individual_redimensionado(antes, n as nat));
        } else {
            let mut i = atual;
            while i < n
                invariant
                    atual <= i <= n,
                    n == nova_quantidade@,
                    atual == antes.plano_individual.len(),
                    plano@.modo == antes.modo,
                    plano@.duracao_global_foco == antes.duracao_global_foco,
                    plano@.duracao_global_pausa == antes.duracao_global_pausa,
                    plano@.atividade_global == antes.atividade_global,
                    plano@.plano_individual == antes.plano_individual + Seq::new(
                        (i - atual) as nat,
                        |k: int| sessao_nova(antes.duracao_global_foco, antes.duracao_global_pausa),
                    ),
                decreases n - i,
            {
                let padrao = Sessao::nova(plano.duracao_global_foco, plano.duracao_global_pausa);
                let ghost velho = plano.plano_individual@;
                plano.plano_individual.push(padrao);
                assert(visao_das_sessoes(plano.plano_individual@) =~= visao_das_sessoes(velho).push(
                    padrao@,
                ));
                i = i + 1;
                assert(plano@.plano_individual =~= antes.plano_individual + Seq::new(
                    (i - atual) as nat,
                    |k: int| sessao_nova(antes.duracao_global_foco, antes.duracao_global_pausa),
                ));
            }
        }
        let sessao = clampar_sessao(ciclo.sessao(), nova_quantidade);
        let ciclo = ciclo.com_total_e_sessao(nova_quantidade, sessao);
        (plano, ciclo)
    }

    /// Troca o modo e realinha a duração ativa do ciclo ao conjunto novo.
    pub fn trocar_modo(self, novo_modo: ModoDeDuracao, ciclo: CicloEmExecucao, agora: Instante) -> (r: (
        Self,
        CicloEmExecucao,
    ))
        requires
            consulta_valida(self@, novo_modo, ciclo@.sessao),
            realinhamento_cabe(
                ciclo@,
                duracoes_para(self@, novo_modo, ciclo@.sessao).0,
                duracoes_para(self@, novo_modo, ciclo@.sessao).1,
                agora@,
            ),
        ensures
            r.0@ == com_modo(self@, novo_modo),
            r.1@ == realinhado(ciclo@, duracoes_para(self@, novo_modo, ciclo@.sessao), agora@),
    {
        let (foco, pausa) = self.duracoes_para(novo_modo, ciclo.sessao());
        let ciclo = ciclo.com_duracao_foco(foco, agora).com_duracao_pausa(pausa, agora);
        (Self { modo: novo_modo, ..self }, ciclo)
    }

    /// Realinha a duração ativa do ciclo depois de um avanço de etapa.
    pub fn realinhar_apos_avancar(&self, ciclo: CicloEmExecucao, agora: Instante) -> (r: CicloEmExecucao)
        requires
            consulta_valida(self@, self@.modo, ciclo@.sessao),
            realinhamento_cabe(
                ciclo@,
                duracoes_para(self@, self@.modo, ciclo@.sessao).0,
                duracoes_para(self@, self@.modo, ciclo@.sessao).1,
                agora@,
            ),
        ensures
            r@ == realinhado(ciclo@, duracoes_para(self@, self@.modo, ciclo@.sessao), agora@),
    {
        let (foco, pausa) = self.duracoes_para(self.modo, ciclo.sessao());
        ciclo.com_duracao_foco(foco, agora).com_duracao_pausa(pausa, agora)
    }

    /// Nova duração global de foco; o ciclo só muda em modo Global.
    pub fn alterar_duracao_global_foco(self, nova: Duracao, ciclo: CicloEmExecucao, agora: Instante) -> (r: (
        Self,
        CicloEmExecucao,
    ))
        requires
            self@.modo == ModoDeDuracao::Global && ciclo@.etapa == Etapa::Foco && correndo(
                ciclo@.timer,
            ) ==> cabe_em_i64(agora@ + nova@),
        ensures
            r.0@ == (PlanoView { duracao_global_foco: nova@, ..self@ }),
            r.1@ == (match self@.modo {
                ModoDeDuracao::Global => com_foco(ciclo@, nova@, agora@),
                ModoDeDuracao::Individual => ciclo@,
            }),
    {
        let ciclo = match self.modo {
            ModoDeDuracao::Global => ciclo.com_duracao_foco(nova, agora),
            ModoDeDuracao::Individual => ciclo,
        };
        (Self { duracao_global_foco: nova, ..self }, ciclo)
    }

    /// Nova duração global de pausa; o ciclo só muda em modo Global.
    pub fn alterar_duracao_global_pausa(self, nova: Duracao, ciclo: CicloEmExecucao, agora: Instante) -> (r: (
        Self,
        CicloEmExecucao,
    ))
        requires
            self@.modo == ModoDeDuracao::Global && ciclo@.etapa == Etapa::Pausa && correndo(
                ciclo@.timer,
            ) ==> cabe_em_i64(agora@ + nova@),
        ensures
            r.0@ == (PlanoView { duracao_global_pausa: nova@, ..self@ }),
            r.1@ == (match self@.modo {
                ModoDeDuracao::Global => com_pausa(ciclo@, nova@, agora@),
                ModoDeDuracao::Individual => ciclo@,
            }),
    {
        let ciclo = match self.modo {
            ModoDeDuracao::Global => ciclo.com_duracao_pausa(nova, agora),
            ModoDeDuracao::Individual => ciclo,
        };
        (Self { duracao_global_pausa: nova, ..self }, ciclo)
    }

    pub fn alterar_atividade_global(self, nova: Atividade) -> (r: Self)
        ensures
            r@ == (PlanoView { atividade_global: nova@, ..self@ }),
    {
        Self { atividade_global: nova, ..self }
    }

    fn validar_sessao(&self, sessao: NumeroDeSessao) -> (r: Result<(), SessaoForaDoPlano>)
        ensures
            (1 <= sessao@ <= total_do_plano(self@)) <==> r is Ok,
            r is Ok ==> sessao_no_plano(self@, sessao@),
            r matches Err(e) ==> e == (SessaoForaDoPlano::ForaDoIntervalo {
                recebido: sessao@ as u8,
                total: total_do_plano(self@) as u8,
            }),
    {
        let total = self.total_sessoes();
        if sessao.valor() < 1 || sessao.valor() > total {
            return Err(SessaoForaDoPlano::ForaDoIntervalo { recebido: sessao.valor(), total });
        }
        Ok(())
    }

    /// Nova duração de foco para `sessao_alvo`; o ciclo só muda se o modo é
    /// Individual e a sessão alvo é a que está em curso.
    pub fn alterar_duracao_individual_foco(
        self,
        sessao_alvo: NumeroDeSessao,
        nova: Duracao,
        ciclo: CicloEmExecucao,
        agora: Instante,
    ) -> (r: Result<(Self, CicloEmExecucao), SessaoForaDoPlano>)
        requires
            self@.modo == ModoDeDuracao::Individual && ciclo@.sessao == sessao_alvo@
                && ciclo@.etapa == Etapa::Foco && correndo(ciclo@.timer) ==> cabe_em_i64(
                agora@ + nova@,
            ),
        ensures
            (1 <= sessao_alvo@ <= total_do_plano(self@)) <==> r is Ok,
            r matches Err(e) ==> e == (SessaoForaDoPlano::ForaDoIntervalo {
                recebido: sessao_alvo@ as u8,
                total: total_do_plano(self@) as u8,
            }),
            r matches Ok(res) ==> {
                &&& res.0@ == (PlanoView {
                    plano_individual: self@.plano_individual.update(
                        sessao_alvo@ - 1,
                        SessaoView { foco: nova@, ..self@.plano_individual[sessao_alvo@ - 1] },
                    ),
                    ..self@
                })
                &&& res.1@ == (if self@.modo == ModoDeDuracao::Individual && ciclo@.sessao
                    == sessao_alvo@ {
                    com_foco(ciclo@, nova@, agora@)
                } else {
                    ciclo@
                })
            },
    {
        self.validar_sessao(sessao_alvo)?;
        let mut plano = self;
        let indice = indice_de(sessao_alvo);
        let atualizada = plano.plano_individual[indice].clone().com_foco(nova);
        plano.plano_individual.set(indice, atualizada);
        assert(plano@.plano_individual =~= self@.plano_individual.update(
            sessao_alvo@ - 1,
            SessaoView { foco: nova@, ..self@.plano_individual[sessao_alvo@ - 1] },
        ));
        let e_a_ativa = match plano.modo {
            ModoDeDuracao::Individual => ciclo.sessao().valor() == sessao_alvo.valor(),
            ModoDeDuracao::Global => false,
        };
        let ciclo = if e_a_ativa { ciclo.com_duracao_foco(nova, agora) } else { ciclo };
        Ok((plano, ciclo))
    }

    /// Nova duração de pausa para `sessao_alvo`; o ciclo só muda se o modo é
    /// Individual e a sessão alvo é a que está em curso.
    pub fn alterar_duracao_individual_pausa(
        self,
        sessao_alvo: NumeroDeSessao,
        nova: Duracao,
        ciclo: CicloEmExecucao,
        agora: Instante,
    ) -> (r: Result<(Self, CicloEmExecucao), SessaoForaDoPlano>)
        requires
            self@.modo == ModoDeDuracao::Individual && ciclo@.sessao == sessao_alvo@
                && ciclo@.etapa == Etapa::Pausa && correndo(ciclo@.timer) ==> cabe_em_i64(
                agora@ + nova@,
            ),
        ensures
            (1 <= sessao_alvo@ <= total_do_plano(self@)) <==> r is Ok,
            r matches Err(e) ==> e == (SessaoForaDoPlano::ForaDoIntervalo {
                recebido: sessao_alvo@ as u8,
                total: total_do_plano(self@) as u8,
            }),
            r matches Ok(res) ==> {
                &&& res.0@ == (PlanoView {
                    plano_individual: self@.plano_individual.update(
                        sessao_alvo@ - 1,
                        SessaoView { pausa: nova@, ..self@.plano_individual[sessao_alvo@ - 1] },
                    ),
                    ..self@
                })
                &&& res.1@ == (if self@.modo == ModoDeDuracao::Individual && ciclo@.sessao
                    == sessao_alvo@ {
                    com_pausa(ciclo@, nova@, agora@)
                } else {
                    ciclo@
                })
            },
    {
        self.validar_sessao(sessao_alvo)?;
        let mut plano = self;
        let indice = indice_de(sessao_alvo);
        let atualizada = plano.plano_individual[indice].clone().com_pausa(nova);
        plano.plano_individual.set(indice, atualizada);
        assert(plano@.plano_individual =~= self@.plano_individual.update(
            sessao_alvo@ - 1,
            SessaoView { pausa: nova@, ..self@.plano_individual[sessao_alvo@ - 1] },
        ));
        let e_a_ativa = match plano.modo {
            ModoDeDuracao::Individual => ciclo.sessao().valor() == sessao_alvo.valor(),
            ModoDeDuracao::Global => false,
        };
        let ciclo = if e_a_ativa { ciclo.com_duracao_pausa(nova, agora) } else { ciclo };
        Ok((plano, ciclo))
    }

    /// Nova atividade para `sessao_alvo`, sem tocar nas outras sessões.
    pub fn alterar_atividade_individual(self, sessao_alvo: NumeroDeSessao, nova: Atividade) -> (r:
        Result<Self, SessaoForaDoPlano>)
        ensures
            (1 <= sessao_alvo@ <= total_do_plano(self@)) <==> r is Ok,
            r matches Err(e) ==> e == (SessaoForaDoPlano::ForaDoIntervalo {
                recebido: sessao_alvo@ as u8,
                total: total_do_plano(self@) as u8,
            }),
            r matches Ok(p) ==> p@ == (PlanoView {
                plano_individual: self@.plano_individual.update(
                    sessao_alvo@ - 1,
                    SessaoView { atividade: nova@, ..self@.plano_individual[sessao_alvo@ - 1] },
                ),
                ..self@
            }),
    {
        self.validar_sessao(sessao_alvo)?;
        let mut plano = self;
        let indice = indice_de(sessao_alvo);
        let ghost nova_visao = nova@;
        let atualizada = plano.plano_individual[indice].clone().com_atividade(nova);
        plano.plano_individual.set(indice, atualizada);
        assert(plano@.plano_individual =~= self@.plano_individual.update(
            sessao_alvo@ - 1,
            SessaoView { atividade: nova_visao, ..self@.plano_individual[sessao_alvo@ - 1] },
        ));
        Ok(plano)
    }
}

/// Trocar de modo e voltar preserva os dois conjuntos de durações: o plano
/// volta a ser exatamente o de antes.
pub proof fn trocar_de_modo_ida_e_volta(p: PlanoView, outro: ModoDeDuracao)
    ensures
        com_modo(com_modo(p, outro), p.modo) == p,
        com_modo(p, outro).duracao_global_foco == p.duracao_global_foco,
        com_modo(p, outro).duracao_global_pausa == p.duracao_global_pausa,
        com_modo(p, outro).plano_individual == p.plano_individual,
{
}

/// Redimensionar preserva as sessões que continuam, e as novas nascem com
/// as durações globais vigentes e a atividade vazia.
pub proof fn redimensionar_preserva_as_existentes(p: PlanoView, n: nat)
    ensures
        individual_redimensionado(p, n).len() == n,
        forall|i: int|
            0 <= i < n && i < p.plano_individual.len() ==> #[trigger] individual_redimensionado(
                p,
                n,
            )[i] == p.plano_individual[i],
        forall|i: int|
            p.plano_individual.len() <= i < n ==> #[trigger] individual_redimensionado(p, n)[i]
                == sessao_nova(p.duracao_global_foco, p.duracao_global_pausa),
{
}

/// Redimensionar para um total válido deixa o plano e o ciclo com esse total,
/// e uma sessão em curso válida continua válida.
pub proof fn redimensionar_deixa_a_sessao_no_plano(atual: nat, total: nat)
    requires
        1 <= atual,
        1 <= total <= 24,
    ensures
        1 <= sessao_clampada(atual, total) <= total,
        atual <= total ==> sessao_clampada(atual, total) == atual,
{
}

} // verus!
