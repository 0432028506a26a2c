use vstd::prelude::*;
use crate::ciclo::{sessao_seguinte, NumeroDeSessao};
use crate::etapa::{etapa_seguinte, Etapa};
use crate::quantidade_de_sessoes::{quantidade_valida, QuantidadeDeSessoes};
use crate::tempo::{cabe_em_i64, Duracao, Instante};
use crate::timer::{
    alternado, alternancia_cabe, correndo, leitura_cabe, restante, vencido, EstadoTimer,
    TimerView,
};

verus! {

/// O ciclo visto como valores matemáticos.
pub struct CicloView {
    pub etapa: Etapa,
    pub sessao: nat,
    pub total: nat,
    pub timer: TimerView,
    pub duracao_foco: int,
    pub duracao_pausa: int,
    pub iniciar_automaticamente: bool,
}

/// Agregado do ciclo: etapa + sessão + timer + durações ativas.
#[derive(Debug, Clone, Copy, PartialEq, Eq)]
pub struct CicloEmExecucao {
    etapa: Etapa,
    sessao: NumeroDeSessao,
    total_sessoes: QuantidadeDeSessoes,
    timer: EstadoTimer,
    duracao_foco: Duracao,
    duracao_pausa: Duracao,
    iniciar_automaticamente: bool,
}

impl View for CicloEmExecucao {
    type V = CicloView;

    closed spec fn view(&self) -> CicloView {
        CicloView {
            etapa: self.etapa,
            sessao: self.sessao@,
            total: self.total_sessoes@,
            timer: self.timer@,
            duracao_foco: self.duracao_foco@,
            duracao_pausa: self.duracao_pausa@,
            iniciar_automaticamente: self.iniciar_automaticamente,
        }
    }
}

/// Duração guardada para a etapa `e`.
pub open spec fn duracao_da_etapa(c: CicloView, e: Etapa) -> int {
    match e {
        Etapa::Foco => c.duracao_foco,
        Etapa::Pausa => c.duracao_pausa,
    }
}

/// Avançar em `agora` não estoura um `i64`.
pub open spec fn avanco_cabe(c: CicloView, agora: int) -> bool {
    cabe_em_i64(agora + duracao_da_etapa(c, etapa_seguinte(c.etapa)))
}

/// A etapa seguinte começa a correr: Pausa sempre, Foco só com o auto-start.
pub open spec fn deve_rodar_ao_entrar(e: Etapa, iniciar_automaticamente: bool) -> bool {
    match e {
        Etapa::Pausa => true,
        Etapa::Foco => iniciar_automaticamente,
    }
}

/// Um avanço de etapa: alterna a etapa, incrementa a sessão (circularmente)
/// só ao entrar em Foco e dá à nova etapa um timer nascido de `agora`.
pub open spec fn avancado(c: CicloView, agora: int) -> CicloView {
    let proxima = etapa_seguinte(c.etapa);
    let duracao = duracao_da_etapa(c, proxima);
    CicloView {
        etapa: proxima,
        sessao: match proxima {
            Etapa::Foco => sessao_seguinte(c.sessao, c.total),
            Etapa::Pausa => c.sessao,
        },
        timer: if deve_rodar_ao_entrar(proxima, c.iniciar_automaticamente) {
            TimerView::Correndo { prazo: agora + duracao }
        } else {
            TimerView::Ocioso { restante: duracao }
        },
        ..c
    }
}

/// Timer realinhado a uma duração nova: se corria, prazo `agora + nova`;
/// parado, volta a ocioso com a duração cheia nova.
pub open spec fn timer_realinhado(t: TimerView, nova: int, agora: int) -> TimerView {
    if correndo(t) {
        TimerView::Correndo { prazo: agora + nova }
    } else {
        TimerView::Ocioso { restante: nova }
    }
}

/// Nova duração de foco: o timer só muda se a etapa atual é Foco.
pub open spec fn com_foco(c: CicloView, nova: int, agora: int) -> CicloView {
    CicloView {
        duracao_foco: nova,
        timer: match c.etapa {
            Etapa::Foco => timer_realinhado(c.timer, nova, agora),
            Etapa::Pausa => c.timer,
        },
        ..c
    }
}

/// Nova duração de pausa: o timer só muda se a etapa atual é Pausa.
pub open spec fn com_pausa(c: CicloView, nova: int, agora: int) -> CicloView {
    CicloView {
        duracao_pausa: nova,
        timer: match c.etapa {
            Etapa::Pausa => timer_realinhado(c.timer, nova, agora),
            Etapa::Foco => c.timer,
        },
        ..c
    }
}

/// Realinhar a esta duração em `agora` não estoura um `i64`.
pub open spec fn realinhamento_cabe(c: CicloView, e: Etapa, nova: int, agora: int) -> bool {
    c.etapa == e && correndo(c.timer) ==> cabe_em_i64(agora + nova)
}

/// Um ciclo recém-criado: Foco, sessão 1, timer ocioso com o foco cheio.
pub open spec fn ciclo_novo(total: nat, foco: int, pausa: int, auto: bool) -> CicloView {
    CicloView {
        etapa: Etapa::Foco,
        sessao: 1,
        total,
        timer: TimerView::Ocioso { restante: foco },
        duracao_foco: foco,
        duracao_pausa: pausa,
        iniciar_automaticamente: auto,
    }
}

impl CicloEmExecucao {
    pub fn novo(
        total_sessoes: QuantidadeDeSessoes,
        duracao_foco: Duracao,
        duracao_pausa: Duracao,
        iniciar_automaticamente: bool,
    ) -> (r: Self)
        ensures
            r@ == ciclo_novo(
                total_sessoes@,
                duracao_foco@,
                duracao_pausa@,
                iniciar_automaticamente,
            ),
    {
        Self {
            etapa: Etapa::Foco,
            sessao: NumeroDeSessao::primeira(),
            total_sessoes,
            timer: EstadoTimer::ocioso(duracao_foco),
            duracao_foco,
            duracao_pausa,
            iniciar_automaticamente,
        }
    }

    pub fn etapa(&self) -> (r: Etapa)
        ensures
            r == self@.etapa,
    {
        self.etapa
    }

    pub fn sessao(&self) -> (r: NumeroDeSessao)
        ensures
            r@ == self@.sessao,
    {
        self.sessao
    }

    /// Total cru de sessões, sempre entre 1 e 24.
    pub fn total_sessoes(&self) -> (r: u8)
        ensures
            r == self@.total,
            quantidade_valida(r as int),
    {
        self.total_sessoes.valor()
    }

    pub fn rodando(&self) -> (r: bool)
        ensures
            r == correndo(self@.timer),
    {
        self.timer.rodando()
    }

    pub fn iniciar_automaticamente(&self) -> (r: bool)
        ensures
            r == self@.iniciar_automaticamente,
    {
        self.iniciar_automaticamente
    }

    /// Troca só a preferência de auto-start.
    pub fn com_iniciar_automaticamente(self, valor: bool) -> (r: Self)
        ensures
            r@ == (CicloView { iniciar_automaticamente: valor, ..self@ }),
    {
        Self { iniciar_automaticamente: valor, ..self }
    }

    pub fn restante_em(&self, agora: Instante) -> (r: Duracao)
        requires
            leitura_cabe(self@.timer, agora@),
        ensures
            r@ == restante(self@.timer, agora@),
    {
        self.timer.restante_em(agora)
    }

    pub fn venceu_em(&self, agora: Instante) -> (r: bool)
        ensures
            r == vencido(self@.timer, agora@),
    {
        self.timer.venceu_em(agora)
    }

    pub fn prazo(&self) -> (r: Option<Instante>)
        ensures
            match self@.timer {
                TimerView::Correndo { prazo } => r is Some && r->0@ == prazo,
                _ => r is None,
            },
    {
        self.timer.prazo()
    }

    /// Duração guardada para o Foco.
    pub fn duracao_foco(&self) -> (r: Duracao)
        ensures
            r@ == self@.duracao_foco,
    {
        self.duracao_foco
    }

    /// Duração guardada para a Pausa.
    pub fn duracao_pausa(&self) -> (r: Duracao)
        ensures
            r@ == self@.duracao_pausa,
    {
        self.duracao_pausa
    }

    pub fn duracao_da_etapa_atual(&self) -> (r: Duracao)
        ensures
            r@ == duracao_da_etapa(self@, self@.etapa),
    {
        match self.etapa {
            Etapa::Foco => self.duracao_foco,
            Etapa::Pausa => self.duracao_pausa,
        }
    }

    /// Ocioso/Pausado passam a correr; Correndo pausa.
    pub fn alternar_execucao(self, agora: Instante) -> (r: Self)
        requires
            alternancia_cabe(self@.timer, agora@),
        ensures
            r@ == (CicloView { timer: alternado(self@.timer, agora@), ..self@ }),
    {
        Self { timer: self.timer.alternar_execucao(agora), ..self }
    }

    /// Volta a etapa atual para ocioso com a duração cheia.
    pub fn reiniciar_etapa(self) -> (r: Self)
        ensures
            r@ == (CicloView {
                timer: TimerView::Ocioso { restante: duracao_da_etapa(self@, self@.etapa) },
                ..self@
            }),
    {
        Self { timer: EstadoTimer::reiniciar(self.duracao_da_etapa_atual()), ..self }
    }

    /// Alterna a etapa; a sessão só incrementa ao entrar em Foco.
    pub fn avancar(self, agora: Instante) -> (r: Self)
        requires
            avanco_cabe(self@, agora@),
        ensures
            r@ == avancado(self@, agora@),
    {
        let proxima_etapa = self.etapa.alternar();
        let proxima_sessao = match proxima_etapa {
            Etapa::Foco => self.sessao.proxima(self.total_sessoes),
            Etapa::Pausa => self.sessao,
        };
        let duracao_destino = match proxima_etapa {
            Etapa::Foco => self.duracao_foco,
            Etapa::Pausa => self.duracao_pausa,
        };
        let deve_rodar = match proxima_etapa {
            Etapa::Pausa => true,
            Etapa::Foco => self.iniciar_automaticamente,
        };
        let timer = if deve_rodar {
            EstadoTimer::Correndo { prazo: agora.mais(duracao_destino) }
        } else {
            EstadoTimer::ocioso(duracao_destino)
        };
        Self { etapa: proxima_etapa, sessao: proxima_sessao, timer, ..self }
    }

    /// Atualiza a duração de foco; o timer só é realinhado se a etapa é Foco.
    pub fn com_duracao_foco(self, nova: Duracao, agora: Instante) -> (r: Self)
        requires
            realinhamento_cabe(self@, Etapa::Foco, nova@, agora@),
        ensures
            r@ == com_foco(self@, nova@, agora@),
    {
        let timer = match self.etapa {
            Etapa::Foco => Self::timer_realinhado(self.timer, nova, agora),
            Etapa::Pausa => self.timer,
        };
        Self { duracao_foco: nova, timer, ..self }
    }

    /// Atualiza a duração de pausa; o timer só é realinhado se a etapa é Pausa.
    pub fn com_duracao_pausa(self, nova: Duracao, agora: Instante) -> (r: Self)
        requires
            realinhamento_cabe(self@, Etapa::Pausa, nova@, agora@),
        ensures
            r@ == com_pausa(self@, nova@, agora@),
    {
        let timer = match self.etapa {
            Etapa::Pausa => Self::timer_realinhado(self.timer, nova, agora),
            Etapa::Foco => self.timer,
        };
        Self { duracao_pausa: nova, timer, ..self }
    }

    fn timer_realinhado(timer: EstadoTimer, nova: Duracao, agora: Instante) -> (r: EstadoTimer)
        requires
            correndo(timer@) ==> cabe_em_i64(agora@ + nova@),
        ensures
            r@ == timer_realinhado(timer@, nova@, agora@),
    {
        if timer.rodando() {
            EstadoTimer::Correndo { prazo: agora.mais(nova) }
        } else {
            EstadoTimer::ocioso(nova)
        }
    }

    /// Troca total de sessões e número da sessão sem tocar no timer.
    pub fn com_total_e_sessao(self, total: QuantidadeDeSessoes, sessao: NumeroDeSessao) -> (r: Self)
        ensures
            r@ == (CicloView { total: total@, sessao: sessao@, ..self@ }),
    {
        Self { total_sessoes: total, sessao, ..self }
    }
}

/// `n` avanços seguidos, todos no mesmo instante.
pub open spec fn avancos(c: CicloView, n: nat, agora: int) -> CicloView
    decreases n,
{
    if n == 0 {
        c
    } else {
        avancos(avancado(c, agora), (n - 1) as nat, agora)
    }
}

proof fn avancos_em_pares(c: CicloView, k: nat, agora: int)
    requires
        c.etapa == Etapa::Foco,
        c.total >= 1,
        1 <= c.sessao <= c.total,
    ensures
        avancos(c, 2 * k, agora).etapa == Etapa::Foco,
        avancos(c, 2 * k, agora).sessao == ((c.sessao - 1 + k) % (c.total as int)) + 1,
        avancos(c, 2 * k, agora).total == c.total,
    decreases k,
{
    if k == 0 {
        vstd::arithmetic::div_mod::lemma_small_mod((c.sessao - 1) as nat, c.total);
    } else {
        let c1 = avancado(c, agora);
        let c2 = avancado(c1, agora);
        assert(avancos(c, 2 * k, agora) == avancos(c1, (2 * k - 1) as nat, agora));
        assert(avancos(c1, (2 * k - 1) as nat, agora) == avancos(c2, (2 * k - 2) as nat, agora));
        assert(c2.sessao == sessao_seguinte(c.sessao, c.total));
        vstd::arithmetic::div_mod::lemma_small_mod((c.sessao - 1) as nat, c.total);
        if c.sessao < c.total {
            vstd::arithmetic::div_mod::lemma_small_mod(c.sessao, c.total);
        } else {
            vstd::arithmetic::div_mod::lemma_mod_self_0(c.total as int);
        }
        assert(1 <= c2.sessao <= c2.total);
        avancos_em_pares(c2, (k - 1) as nat, agora);
        assert((2 * k - 2) as nat == 2 * ((k - 1) as nat));
        let t = c.total as int;
        let s = c.sessao - 1;
        // c2.sessao - 1 == (s + 1) % t
        vstd::arithmetic::div_mod::lemma_add_mod_noop(s + 1, k - 1, t);
        vstd::arithmetic::div_mod::lemma_mod_twice(s + 1, t);
        vstd::arithmetic::div_mod::lemma_add_mod_noop((s + 1) % t, k - 1, t);
        assert(((c2.sessao - 1) + (k - 1)) % t == (s + k) % t);
    }
}

/// O ciclo é circular: a partir de um Foco numa sessão válida, `2 * total`
/// avanços (um Foco e uma Pausa por sessão) voltam ao Foco da mesma sessão.
pub proof fn ciclo_completo_volta_ao_inicio(c: CicloView, agora: int)
    requires
        c.etapa == Etapa::Foco,
        quantidade_valida(c.total as int),
        1 <= c.sessao <= c.total,
    ensures
        avancos(c, 2 * c.total, agora).etapa == Etapa::Foco,
        avancos(c, 2 * c.total, agora).sessao == c.sessao,
{
    avancos_em_pares(c, c.total, agora);
    let t = c.total as int;
    vstd::arithmetic::div_mod::lemma_add_mod_noop(c.sessao - 1, t, t);
    vstd::arithmetic::div_mod::lemma_mod_self_0(t);
    vstd::arithmetic::div_mod::lemma_small_mod((c.sessao - 1) as nat, c.total);
}

/// Um único avanço, mesmo muito depois do prazo vencido (suspensão do
/// sistema), avança exatamente uma etapa, e o novo prazo nasce de `agora`,
/// nunca do prazo antigo.
pub proof fn avanco_apos_suspensao_e_uma_etapa(c: CicloView, agora: int)
    ensures
        avancado(c, agora).etapa == etapa_seguinte(c.etapa),
        avancado(c, agora).etapa == Etapa::Pausa ==> avancado(c, agora).timer == (TimerView::Correndo {
            prazo: agora + c.duracao_pausa,
        }),
        avancado(c, agora).etapa == Etapa::Pausa ==> restante(avancado(c, agora).timer, agora)
            == (if c.duracao_pausa >= 0 { c.duracao_pausa } else { 0 }),
{
}

/// Alterar a duração da etapa que não está em curso nunca toca no timer, e
/// trocar total e sessão também não.
pub proof fn alteracoes_fora_da_etapa_preservam_o_timer(c: CicloView, nova: int, agora: int)
    ensures
        c.etapa == Etapa::Foco ==> com_pausa(c, nova, agora).timer == c.timer,
        c.etapa == Etapa::Pausa ==> com_foco(c, nova, agora).timer == c.timer,
{
}

/// Avançar dá à etapa em que se entra um timer com a duração dessa etapa:
/// saindo do Foco, a Pausa corre até `agora + duracao_pausa`; saindo da
/// Pausa, o Foco corre até `agora + duracao_foco` com o auto-start ligado, ou
/// fica ocioso com o foco cheio sem ele.
pub proof fn avancar_carrega_a_duracao_da_etapa_nova(c: CicloView, agora: int)
    ensures
        c.etapa == Etapa::Foco ==> {
            &&& avancado(c, agora).etapa == Etapa::Pausa
            &&& avancado(c, agora).timer == (TimerView::Correndo { prazo: agora + c.duracao_pausa })
        },
        c.etapa == Etapa::Pausa && c.iniciar_automaticamente ==> {
            &&& avancado(c, agora).etapa == Etapa::Foco
            &&& avancado(c, agora).timer == (TimerView::Correndo { prazo: agora + c.duracao_foco })
        },
        c.etapa == Etapa::Pausa && !c.iniciar_automaticamente ==> {
            &&& avancado(c, agora).etapa == Etapa::Foco
            &&& avancado(c, agora).timer == (TimerView::Ocioso { restante: c.duracao_foco })
        },
        avancado(c, agora).duracao_foco == c.duracao_foco,
        avancado(c, agora).duracao_pausa == c.duracao_pausa,
{
}

/// Mudar a duração da etapa ativa realinha o timer: se corria, passa a correr
/// até `agora + nova`; parado (ocioso ou pausado), volta a ocioso com a
/// duração nova cheia. Mudar a duração da outra etapa não mexe no timer. Em
/// todos os casos a duração guardada passa a ser a nova.
pub proof fn mudar_duracao_realinha_o_timer_da_etapa_ativa(c: CicloView, nova: int, agora: int)
    ensures
        com_foco(c, nova, agora).duracao_foco == nova,
        com_pausa(c, nova, agora).duracao_pausa == nova,
        c.etapa == Etapa::Foco && c.timer is Correndo
            ==> com_foco(c, nova, agora).timer == (TimerView::Correndo { prazo: agora + nova }),
        c.etapa == Etapa::Foco && (c.timer is Ocioso || c.timer is Pausado)
            ==> com_foco(c, nova, agora).timer == (TimerView::Ocioso { restante: nova }),
        c.etapa == Etapa::Pausa && c.timer is Correndo
            ==> com_pausa(c, nova, agora).timer == (TimerView::Correndo { prazo: agora + nova }),
        c.etapa == Etapa::Pausa && (c.timer is Ocioso || c.timer is Pausado)
            ==> com_pausa(c, nova, agora).timer == (TimerView::Ocioso { restante: nova }),
        c.etapa == Etapa::Pausa ==> com_foco(c, nova, agora).timer == c.timer,
        c.etapa == Etapa::Foco ==> com_pausa(c, nova, agora).timer == c.timer,
{
}

} // verus!
