use pomodoro::ciclo::NumeroDeSessao;
use pomodoro::ciclo_em_execucao::CicloEmExecucao;
use pomodoro::data::Data;
use pomodoro::etapa::Etapa;
use pomodoro::quantidade_de_sessoes::QuantidadeDeSessoes;
use pomodoro::relogio::Relogio;
use pomodoro::tempo::{Duracao, Instante};
use pomodoro::timer::EstadoTimer;
use std::sync::atomic::{AtomicI64, Ordering};
use std::sync::Mutex;

/// Relógio de teste: nenhum teste espera 25 minutos de verdade.
struct RelogioFake {
    epoca_ms: AtomicI64,
    hoje: Mutex<Data>,
}

impl RelogioFake {
    fn parado_em(instante: Instante) -> Self {
        Self {
            epoca_ms: AtomicI64::new(instante.epoca_ms()),
            hoje: Mutex::new(Data::de(2026, 1, 1)),
        }
    }

    fn avancar(&self, quanto: Duracao) {
        self.epoca_ms.fetch_add(quanto.em_ms(), Ordering::SeqCst);
    }
}

impl Relogio for RelogioFake {
    fn agora(&self) -> Instante {
        Instante::desde_epoca_ms(self.epoca_ms.load(Ordering::SeqCst))
    }

    fn hoje(&self) -> Data {
        *self.hoje.lock().expect("lock do dia fake")
    }
}

fn ciclo_de_quatro(iniciar_automaticamente: bool) -> CicloEmExecucao {
    CicloEmExecucao::novo(
        QuantidadeDeSessoes::nova(4).expect("teste"),
        Duracao::de_minutos(25),
        Duracao::de_minutos(5),
        iniciar_automaticamente,
    )
}

#[test]
fn iniciar_automaticamente_reflete_o_valor_construido() {
    assert!(ciclo_de_quatro(true).iniciar_automaticamente());
    assert!(!ciclo_de_quatro(false).iniciar_automaticamente());
}

#[test]
fn com_iniciar_automaticamente_troca_so_essa_flag() {
    let ciclo = ciclo_de_quatro(true).com_iniciar_automaticamente(false);
    assert!(!ciclo.iniciar_automaticamente());
    assert_eq!(ciclo.etapa(), Etapa::Foco);
    assert_eq!(ciclo.sessao().valor(), 1);
    assert!(!ciclo.rodando());
}

#[test]
fn foco_avanca_para_pausa_sem_incrementar_sessao() {
    let ciclo = ciclo_de_quatro(true).avancar(Instante::desde_epoca_ms(0));
    assert_eq!(ciclo.etapa(), Etapa::Pausa);
    assert_eq!(ciclo.sessao().valor(), 1);
}

#[test]
fn pausa_avanca_para_foco_incrementando_sessao() {
    let ciclo = ciclo_de_quatro(true)
        .avancar(Instante::desde_epoca_ms(0))
        .avancar(Instante::desde_epoca_ms(0));
    assert_eq!(ciclo.etapa(), Etapa::Foco);
    assert_eq!(ciclo.sessao().valor(), 2);
}

#[test]
fn ciclo_circular_volta_da_sessao_quatro_para_a_um() {
    let mut ciclo = ciclo_de_quatro(true);
    let agora = Instante::desde_epoca_ms(0);
    for _ in 0..(4 * 2) {
        ciclo = ciclo.avancar(agora);
    }
    assert_eq!(ciclo.etapa(), Etapa::Foco);
    assert_eq!(ciclo.sessao().valor(), 1);
}

#[test]
fn entrar_em_pausa_sempre_inicia_mesmo_com_autostart_desligado() {
    let ciclo = ciclo_de_quatro(false).avancar(Instante::desde_epoca_ms(0));
    assert_eq!(ciclo.etapa(), Etapa::Pausa);
    assert!(ciclo.rodando());
}

#[test]
fn entrar_em_foco_respeita_autostart_desligado() {
    let ciclo = ciclo_de_quatro(false)
        .avancar(Instante::desde_epoca_ms(0))
        .avancar(Instante::desde_epoca_ms(0));
    assert_eq!(ciclo.etapa(), Etapa::Foco);
    assert!(!ciclo.rodando());
}

#[test]
fn entrar_em_foco_inicia_quando_autostart_ligado() {
    let ciclo = ciclo_de_quatro(true)
        .avancar(Instante::desde_epoca_ms(0))
        .avancar(Instante::desde_epoca_ms(0));
    assert_eq!(ciclo.etapa(), Etapa::Foco);
    assert!(ciclo.rodando());
}

#[test]
fn pausar_e_retomar_preserva_o_restante() {
    let relogio = RelogioFake::parado_em(Instante::desde_epoca_ms(0));
    let ciclo = ciclo_de_quatro(true).alternar_execucao(relogio.agora());
    relogio.avancar(Duracao::de_minutos(10));

    let pausado = ciclo.alternar_execucao(relogio.agora());
    assert!(!pausado.rodando());
    assert_eq!(pausado.restante_em(relogio.agora()), Duracao::de_minutos(15));

    relogio.avancar(Duracao::de_minutos(3));
    let retomado = pausado.alternar_execucao(relogio.agora());
    assert!(retomado.rodando());
    assert_eq!(retomado.restante_em(relogio.agora()), Duracao::de_minutos(15));
}

#[test]
fn retomada_apos_suspensao_avanca_uma_unica_etapa() {
    let ciclo = ciclo_de_quatro(true).alternar_execucao(Instante::desde_epoca_ms(0));
    let prazo_original = Instante::desde_epoca_ms(0).mais(Duracao::de_minutos(25));

    let acordar = prazo_original.mais(Duracao::de_minutos(180));
    assert!(ciclo.venceu_em(acordar));

    let depois = ciclo.avancar(acordar);
    assert_eq!(depois.etapa(), Etapa::Pausa);
    assert_eq!(depois.sessao().valor(), 1);
    assert_eq!(depois.restante_em(acordar), Duracao::de_minutos(5));
}

#[test]
fn reiniciar_etapa_recarrega_a_duracao_cheia_da_etapa_atual() {
    let ciclo = ciclo_de_quatro(true).alternar_execucao(Instante::desde_epoca_ms(0));
    let reiniciado = ciclo.reiniciar_etapa();
    assert!(!reiniciado.rodando());
    assert_eq!(reiniciado.restante_em(Instante::desde_epoca_ms(0)), Duracao::de_minutos(25));
}

#[test]
fn alterar_duracao_da_etapa_ativa_rodando_recalcula_o_prazo_a_partir_de_agora() {
    let relogio = RelogioFake::parado_em(Instante::desde_epoca_ms(0));
    let ciclo = ciclo_de_quatro(true).alternar_execucao(relogio.agora());
    relogio.avancar(Duracao::de_minutos(12));

    let alterado = ciclo.com_duracao_foco(Duracao::de_minutos(50), relogio.agora());
    assert!(alterado.rodando());
    assert_eq!(alterado.restante_em(relogio.agora()), Duracao::de_minutos(50));
}

#[test]
fn alterar_duracao_da_etapa_ativa_parada_recarrega_o_restante_para_a_duracao_cheia() {
    let ciclo = ciclo_de_quatro(false);
    assert!(!ciclo.rodando());

    let alterado = ciclo.com_duracao_foco(Duracao::de_minutos(50), Instante::desde_epoca_ms(0));
    assert!(!alterado.rodando());
    assert_eq!(alterado.restante_em(Instante::desde_epoca_ms(0)), Duracao::de_minutos(50));
}

#[test]
fn alterar_duracao_que_nao_e_a_ativa_so_atualiza_o_valor_guardado() {
    let relogio = RelogioFake::parado_em(Instante::desde_epoca_ms(0));
    let ciclo = ciclo_de_quatro(true).alternar_execucao(relogio.agora());
    relogio.avancar(Duracao::de_minutos(12));

    let alterado = ciclo.com_duracao_pausa(Duracao::de_minutos(20), relogio.agora());
    assert!(alterado.rodando());
    assert_eq!(alterado.restante_em(relogio.agora()), Duracao::de_minutos(13));
    assert_eq!(alterado.duracao_pausa(), Duracao::de_minutos(20));
}

#[test]
fn com_total_e_sessao_nao_toca_no_timer() {
    let relogio = RelogioFake::parado_em(Instante::desde_epoca_ms(0));
    let ciclo = ciclo_de_quatro(true).alternar_execucao(relogio.agora());
    relogio.avancar(Duracao::de_minutos(10));

    let redimensionado = ciclo.com_total_e_sessao(
        QuantidadeDeSessoes::nova(3).expect("teste"),
        NumeroDeSessao::de(3),
    );
    assert_eq!(redimensionado.total_sessoes(), 3);
    assert_eq!(redimensionado.sessao().valor(), 3);
    assert!(redimensionado.rodando());
    assert_eq!(redimensionado.restante_em(relogio.agora()), Duracao::de_minutos(15));
}

#[test]
fn prazo_e_duracao_da_etapa_atual_do_ciclo() {
    let ciclo = ciclo_de_quatro(true);
    assert_eq!(ciclo.prazo(), None);
    assert_eq!(ciclo.duracao_da_etapa_atual(), Duracao::de_minutos(25));
    assert_eq!(ciclo.duracao_foco(), Duracao::de_minutos(25));
    let correndo = ciclo.alternar_execucao(Instante::desde_epoca_ms(1_000));
    assert_eq!(correndo.prazo(), Some(Instante::desde_epoca_ms(1_000 + 1_500_000)));
    let em_pausa = correndo.avancar(Instante::desde_epoca_ms(2_000));
    assert_eq!(em_pausa.duracao_da_etapa_atual(), Duracao::de_minutos(5));
    assert_eq!(em_pausa.total_sessoes(), 4);
}

#[test]
fn alternar_execucao_de_ocioso_calcula_prazo_a_partir_de_agora() {
    let relogio = RelogioFake::parado_em(Instante::desde_epoca_ms(0));
    let timer = EstadoTimer::ocioso(Duracao::de_minutos(25)).alternar_execucao(relogio.agora());
    relogio.avancar(Duracao::de_minutos(10));
    assert_eq!(timer.restante_em(relogio.agora()), Duracao::de_minutos(15));
}

#[test]
fn pausar_e_retomar_preserva_o_restante_e_recalcula_o_prazo() {
    let relogio = RelogioFake::parado_em(Instante::desde_epoca_ms(0));
    let timer = EstadoTimer::ocioso(Duracao::de_minutos(25)).alternar_execucao(relogio.agora());

    relogio.avancar(Duracao::de_minutos(10));
    let pausado = timer.alternar_execucao(relogio.agora());
    assert_eq!(pausado, EstadoTimer::Pausado { restante: Duracao::de_minutos(15) });

    relogio.avancar(Duracao::de_minutos(3));
    let retomado = pausado.alternar_execucao(relogio.agora());
    assert_eq!(
        retomado,
        EstadoTimer::Correndo { prazo: Instante::desde_epoca_ms(13 * 60_000 + 15 * 60_000) }
    );
    assert_eq!(retomado.restante_em(relogio.agora()), Duracao::de_minutos(15));
}

#[test]
fn reiniciar_sempre_produz_ocioso_com_duracao_cheia() {
    assert_eq!(
        EstadoTimer::reiniciar(Duracao::de_minutos(25)),
        EstadoTimer::ocioso(Duracao::de_minutos(25))
    );
}

#[test]
fn venceu_em_e_falso_fora_de_correndo() {
    assert!(!EstadoTimer::ocioso(Duracao::zero()).venceu_em(Instante::desde_epoca_ms(0)));
    assert!(!EstadoTimer::Pausado { restante: Duracao::zero() }.venceu_em(Instante::desde_epoca_ms(0)));
}

#[test]
fn venceu_em_e_verdadeiro_quando_agora_alcanca_o_prazo() {
    let timer = EstadoTimer::Correndo { prazo: Instante::desde_epoca_ms(1_000) };
    assert!(!timer.venceu_em(Instante::desde_epoca_ms(999)));
    assert!(timer.venceu_em(Instante::desde_epoca_ms(1_000)));
    assert!(timer.venceu_em(Instante::desde_epoca_ms(5_000)));
}

#[test]
fn prazo_so_existe_quando_correndo() {
    assert_eq!(EstadoTimer::ocioso(Duracao::zero()).prazo(), None);
    let prazo = Instante::desde_epoca_ms(1_000);
    assert_eq!(EstadoTimer::Correndo { prazo }.prazo(), Some(prazo));
}

#[test]
fn restante_de_timer_vencido_e_zero() {
    let timer = EstadoTimer::Correndo { prazo: Instante::desde_epoca_ms(1_000) };
    assert_eq!(timer.restante_em(Instante::desde_epoca_ms(9_000)), Duracao::zero());
    assert!(timer.rodando());
    assert!(!EstadoTimer::ocioso(Duracao::zero()).rodando());
}
